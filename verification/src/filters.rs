//! List-query filters and their per-entity projection.
//!
//! A `Filter` is a record of optional criteria, each stored already
//! string-encoded. Every setter overwrites the prior value of its own
//! criterion and leaves the others alone, so the last write wins. Each
//! entity kind projects a filter through its own `FilterBuilder`:
//! invoices accept every criterion, subjects drop a fixed set of keys,
//! and the account accepts none.

use crate::models::{InvoiceState, Timestamp};
use crate::strutil::{dec_str_int, i32_dec_str};
use vstd::prelude::*;
use vstd::string::StringExecFns;

verus! {

/// The mathematical content of a `Filter`: each criterion as an
/// optional character sequence.
pub struct FilterView {
    pub page: Option<Seq<char>>,
    pub since: Option<Seq<char>>,
    pub until: Option<Seq<char>>,
    pub updated_since: Option<Seq<char>>,
    pub updated_until: Option<Seq<char>>,
    pub custom_id: Option<Seq<char>>,
    pub number: Option<Seq<char>>,
    pub status: Option<Seq<char>>,
    pub subject_id: Option<Seq<char>>,
}

/// The query pair a criterion contributes: nothing when unset.
pub open spec fn opt_pair(name: Seq<char>, v: Option<Seq<char>>) -> Seq<(Seq<char>, Seq<char>)> {
    match v {
        Some(s) => seq![(name, s)],
        None => Seq::empty(),
    }
}

impl FilterView {
    /// The view of a freshly constructed filter: no criterion set.
    pub open spec fn empty_view() -> FilterView {
        FilterView {
            page: None,
            since: None,
            until: None,
            updated_since: None,
            updated_until: None,
            custom_id: None,
            number: None,
            status: None,
            subject_id: None,
        }
    }

    /// True when no criterion is set.
    pub open spec fn is_empty(self) -> bool {
        &&& self.page is None
        &&& self.since is None
        &&& self.until is None
        &&& self.updated_since is None
        &&& self.updated_until is None
        &&& self.custom_id is None
        &&& self.number is None
        &&& self.status is None
        &&& self.subject_id is None
    }

    pub open spec fn with_page(self, v: Seq<char>) -> FilterView {
        FilterView { page: Some(v), ..self }
    }

    pub open spec fn with_since(self, v: Seq<char>) -> FilterView {
        FilterView { since: Some(v), ..self }
    }

    pub open spec fn with_until(self, v: Seq<char>) -> FilterView {
        FilterView { until: Some(v), ..self }
    }

    pub open spec fn with_updated_since(self, v: Seq<char>) -> FilterView {
        FilterView { updated_since: Some(v), ..self }
    }

    pub open spec fn with_updated_until(self, v: Seq<char>) -> FilterView {
        FilterView { updated_until: Some(v), ..self }
    }

    pub open spec fn with_custom_id(self, v: Seq<char>) -> FilterView {
        FilterView { custom_id: Some(v), ..self }
    }

    pub open spec fn with_number(self, v: Seq<char>) -> FilterView {
        FilterView { number: Some(v), ..self }
    }

    pub open spec fn with_status(self, v: Seq<char>) -> FilterView {
        FilterView { status: Some(v), ..self }
    }

    pub open spec fn with_subject_id(self, v: Seq<char>) -> FilterView {
        FilterView { subject_id: Some(v), ..self }
    }

    /// Every set criterion as a query pair, in canonical order.
    pub open spec fn all_pairs(self) -> Seq<(Seq<char>, Seq<char>)> {
        opt_pair("page"@, self.page) + opt_pair("since"@, self.since) + opt_pair(
            "until"@,
            self.until,
        ) + opt_pair("updated_since"@, self.updated_since) + opt_pair(
            "updated_until"@,
            self.updated_until,
        ) + opt_pair("custom_id"@, self.custom_id) + opt_pair("number"@, self.number) + opt_pair(
            "status"@,
            self.status,
        ) + opt_pair("subject_id"@, self.subject_id)
    }

    /// The pairs a subject list accepts: the related-invoice criteria
    /// (`subject_id`, `until`, `updated_until`, `number`, `status`) are
    /// dropped even when set.
    pub open spec fn subject_pairs(self) -> Seq<(Seq<char>, Seq<char>)> {
        opt_pair("page"@, self.page) + opt_pair("since"@, self.since) + opt_pair(
            "updated_since"@,
            self.updated_since,
        ) + opt_pair("custom_id"@, self.custom_id)
    }
}

/// Optional list-query criteria, stored string-encoded, prior to
/// entity-specific projection.
#[derive(Debug, Clone)]
pub struct Filter {
    page: Option<String>,
    since: Option<String>,
    until: Option<String>,
    updated_since: Option<String>,
    updated_until: Option<String>,
    custom_id: Option<String>,
    number: Option<String>,
    status: Option<String>,
    subject_id: Option<String>,
}

impl View for Filter {
    type V = FilterView;

    closed spec fn view(&self) -> FilterView {
        FilterView {
            page: match self.page {
                Some(s) => Some(s@),
                None => None,
            },
            since: match self.since {
                Some(s) => Some(s@),
                None => None,
            },
            until: match self.until {
                Some(s) => Some(s@),
                None => None,
            },
            updated_since: match self.updated_since {
                Some(s) => Some(s@),
                None => None,
            },
            updated_until: match self.updated_until {
                Some(s) => Some(s@),
                None => None,
            },
            custom_id: match self.custom_id {
                Some(s) => Some(s@),
                None => None,
            },
            number: match self.number {
                Some(s) => Some(s@),
                None => None,
            },
            status: match self.status {
                Some(s) => Some(s@),
                None => None,
            },
            subject_id: match self.subject_id {
                Some(s) => Some(s@),
                None => None,
            },
        }
    }
}

impl Default for Filter {
    /// A filter with no criterion set.
    fn default() -> (r: Self)
        ensures
            r@ == FilterView::empty_view(),
    {
        Filter {
            page: None,
            since: None,
            until: None,
            updated_since: None,
            updated_until: None,
            custom_id: None,
            number: None,
            status: None,
            subject_id: None,
        }
    }
}

impl Filter {
    /// A filter with no criterion set.
    pub fn new() -> (r: Self)
        ensures
            r@ == FilterView::empty_view(),
    {
        Self::default()
    }

    /// Requests the given result page. Overwrites a prior page.
    pub fn page(self, page: i32) -> (r: Self)
        ensures
            r@ == self@.with_page(dec_str_int(page as int)),
    {
        Filter { page: Some(i32_dec_str(page)), ..self }
    }

    /// Keeps only entities created at or after the given time.
    /// Overwrites a prior lower creation bound.
    pub fn since(self, since: Timestamp) -> (r: Self)
        requires
            since.wf(),
        ensures
            r@ == self@.with_since(since.spec_rfc3339()),
    {
        Filter { since: Some(since.rfc3339()), ..self }
    }

    /// Keeps only entities updated at or after the given time.
    /// Overwrites a prior lower update bound.
    pub fn updated_since(self, upd_since: Timestamp) -> (r: Self)
        requires
            upd_since.wf(),
        ensures
            r@ == self@.with_updated_since(upd_since.spec_rfc3339()),
    {
        Filter { updated_since: Some(upd_since.rfc3339()), ..self }
    }

    /// Keeps only entities with the given external id. Overwrites a
    /// prior external id.
    pub fn custom_id(self, custom_id: &str) -> (r: Self)
        ensures
            r@ == self@.with_custom_id(custom_id@),
    {
        Filter { custom_id: Some(custom_id.to_owned()), ..self }
    }

    /// Keeps only entities created at or before the given time.
    /// Overwrites a prior upper creation bound.
    pub fn until(self, until: Timestamp) -> (r: Self)
        requires
            until.wf(),
        ensures
            r@ == self@.with_until(until.spec_rfc3339()),
    {
        Filter { until: Some(until.rfc3339()), ..self }
    }

    /// Keeps only entities updated at or before the given time.
    /// Overwrites a prior upper update bound.
    pub fn updated_until(self, upd_until: Timestamp) -> (r: Self)
        requires
            upd_until.wf(),
        ensures
            r@ == self@.with_updated_until(upd_until.spec_rfc3339()),
    {
        Filter { updated_until: Some(upd_until.rfc3339()), ..self }
    }

    /// Keeps only entities with the given document number. Overwrites a
    /// prior number.
    pub fn number(self, number: &str) -> (r: Self)
        ensures
            r@ == self@.with_number(number@),
    {
        Filter { number: Some(number.to_owned()), ..self }
    }

    /// Keeps only invoices in the given state. Overwrites a prior state.
    pub fn status(self, status: InvoiceState) -> (r: Self)
        ensures
            r@ == self@.with_status(status.spec_name()),
    {
        Filter { status: Some(String::from_str(status.name())), ..self }
    }

    /// Keeps only entities related to the subject with the given id.
    /// Overwrites a prior subject id.
    pub fn subject_id(self, id: i32) -> (r: Self)
        ensures
            r@ == self@.with_subject_id(dec_str_int(id as int)),
    {
        Filter { subject_id: Some(i32_dec_str(id)), ..self }
    }

    /// True when no criterion is set; an empty filter must be treated
    /// as "no filter" and submitted as no query at all.
    pub fn is_empty(&self) -> (r: bool)
        ensures
            r == self@.is_empty(),
    {
        self.page.is_none() && self.since.is_none() && self.until.is_none()
            && self.updated_since.is_none() && self.updated_until.is_none()
            && self.custom_id.is_none() && self.number.is_none() && self.status.is_none()
            && self.subject_id.is_none()
    }
}

/// Appends the query pair of one criterion, when it is set.
fn push_pair(out: &mut Vec<(String, String)>, name: &str, v: &Option<String>)
    ensures
        final(out).deep_view() == old(out).deep_view() + opt_pair(
            name@,
            match v {
                Some(s) => Some(s@),
                None => None,
            },
        ),
{
    match v {
        Some(s) => {
            out.push((name.to_owned(), s.clone()));
            proof {
                assert(out.deep_view() =~= old(out).deep_view() + seq![(name@, s@)]);
            }
        },
        None => {
            proof {
                assert(out.deep_view() =~= old(out).deep_view());
            }
        },
    }
}

/// An entity kind's projection from a generic filter to the query
/// pairs its list endpoint accepts.
pub trait FilterBuilder {
    /// The pairs this projection yields for a given filter.
    spec fn spec_build(&self, f: FilterView) -> Seq<(Seq<char>, Seq<char>)>;

    /// Projects the filter; the filter itself is consumed and the
    /// result holds exactly the pairs `spec_build` describes.
    fn build(&self, filter: Filter) -> (r: Vec<(String, String)>)
        ensures
            r.deep_view() == self.spec_build(filter@),
    ;
}

/// The projection of the account singleton: accepts no criterion.
pub struct NoneFilter;

/// The projection of subject lists: drops the invoice-only criteria.
pub struct SubjectFilter;

/// The projection of invoice lists: accepts every criterion.
pub struct InvoiceFilter;

impl FilterBuilder for NoneFilter {
    /// The account endpoint ignores all query filtering, so any filter,
    /// empty or not, projects to no pairs at all.
    open spec fn spec_build(&self, f: FilterView) -> Seq<(Seq<char>, Seq<char>)> {
        Seq::empty()
    }

    fn build(&self, filter: Filter) -> (r: Vec<(String, String)>)
        ensures
            r.deep_view() == self.spec_build(filter@),
    {
        let r: Vec<(String, String)> = Vec::new();
        proof {
            assert(r.deep_view() =~= self.spec_build(filter@));
        }
        r
    }
}

impl FilterBuilder for SubjectFilter {
    open spec fn spec_build(&self, f: FilterView) -> Seq<(Seq<char>, Seq<char>)> {
        f.subject_pairs()
    }

    fn build(&self, filter: Filter) -> (r: Vec<(String, String)>)
        ensures
            r.deep_view() == self.spec_build(filter@),
    {
        let mut out: Vec<(String, String)> = Vec::new();
        push_pair(&mut out, "page", &filter.page);
        push_pair(&mut out, "since", &filter.since);
        push_pair(&mut out, "updated_since", &filter.updated_since);
        push_pair(&mut out, "custom_id", &filter.custom_id);
        proof {
            assert(out.deep_view() =~= filter@.subject_pairs());
        }
        out
    }
}

impl FilterBuilder for InvoiceFilter {
    open spec fn spec_build(&self, f: FilterView) -> Seq<(Seq<char>, Seq<char>)> {
        f.all_pairs()
    }

    fn build(&self, filter: Filter) -> (r: Vec<(String, String)>)
        ensures
            r.deep_view() == self.spec_build(filter@),
    {
        let mut out: Vec<(String, String)> = Vec::new();
        push_pair(&mut out, "page", &filter.page);
        push_pair(&mut out, "since", &filter.since);
        push_pair(&mut out, "until", &filter.until);
        push_pair(&mut out, "updated_since", &filter.updated_since);
        push_pair(&mut out, "updated_until", &filter.updated_until);
        push_pair(&mut out, "custom_id", &filter.custom_id);
        push_pair(&mut out, "number", &filter.number);
        push_pair(&mut out, "status", &filter.status);
        push_pair(&mut out, "subject_id", &filter.subject_id);
        proof {
            assert(out.deep_view() =~= filter@.all_pairs());
        }
        out
    }
}

// ---------------------------------------------------------------------------
// Laws
// ---------------------------------------------------------------------------

/// Law: setting the page twice keeps only the later value; the earlier
/// write is lost entirely.
pub proof fn lemma_page_last_write_wins(f: FilterView, a: Seq<char>, b: Seq<char>)
    ensures
        f.with_page(a).with_page(b) == f.with_page(b),
{
}

/// Law: a freshly constructed filter is empty, and one application of
/// any single setter makes it non-empty.
pub proof fn lemma_emptiness(f: FilterView, v: Seq<char>)
    ensures
        FilterView::empty_view().is_empty(),
        !f.with_page(v).is_empty(),
        !f.with_since(v).is_empty(),
        !f.with_until(v).is_empty(),
        !f.with_updated_since(v).is_empty(),
        !f.with_updated_until(v).is_empty(),
        !f.with_custom_id(v).is_empty(),
        !f.with_number(v).is_empty(),
        !f.with_status(v).is_empty(),
        !f.with_subject_id(v).is_empty(),
{
}

/// Law: the subject projection never yields an excluded key, and every
/// non-excluded criterion that is set is kept with its value unchanged.
pub proof fn lemma_subject_projection(f: FilterView)
    ensures
        forall|i: int|
            0 <= i < f.subject_pairs().len() ==> {
                let name = (#[trigger] f.subject_pairs()[i]).0;
                name != "subject_id"@ && name != "until"@ && name != "updated_until"@ && name
                    != "number"@ && name != "status"@
            },
        f.page is Some ==> f.subject_pairs().contains(("page"@, f.page->0)),
        f.since is Some ==> f.subject_pairs().contains(("since"@, f.since->0)),
        f.updated_since is Some ==> f.subject_pairs().contains(
            ("updated_since"@, f.updated_since->0),
        ),
        f.custom_id is Some ==> f.subject_pairs().contains(("custom_id"@, f.custom_id->0)),
{
    reveal_strlit("page");
    reveal_strlit("since");
    reveal_strlit("until");
    reveal_strlit("updated_since");
    reveal_strlit("updated_until");
    reveal_strlit("custom_id");
    reveal_strlit("number");
    reveal_strlit("status");
    reveal_strlit("subject_id");
    let ps = f.subject_pairs();
    // Keys of different lengths differ; the two same-length pairs
    // differ at a character.
    assert("page"@.len() == 4);
    assert("since"@.len() == 5);
    assert("until"@.len() == 5);
    assert("updated_since"@.len() == 13);
    assert("updated_until"@.len() == 13);
    assert("custom_id"@.len() == 9);
    assert("number"@.len() == 6);
    assert("status"@.len() == 6);
    assert("subject_id"@.len() == 10);
    assert("since"@[0] == 's' && "until"@[0] == 'u');
    assert("since"@ != "until"@);
    assert("updated_since"@[8] == 's' && "updated_until"@[8] == 'u');
    assert("updated_since"@ != "updated_until"@);
    assert forall|i: int| 0 <= i < ps.len() implies {
        let name = (#[trigger] ps[i]).0;
        name == "page"@ || name == "since"@ || name == "updated_since"@ || name == "custom_id"@
    } by {}
    if f.page is Some {
        assert(ps[0] == ("page"@, f.page->0));
    }
    if f.since is Some {
        let i: int = if f.page is Some { 1 } else { 0 };
        assert(ps[i] == ("since"@, f.since->0));
    }
    if f.updated_since is Some {
        let i: int = (if f.page is Some { 1int } else { 0 }) + (if f.since is Some { 1int } else { 0 });
        assert(ps[i] == ("updated_since"@, f.updated_since->0));
    }
    if f.custom_id is Some {
        let i: int = (if f.page is Some { 1int } else { 0 }) + (if f.since is Some { 1int } else { 0 })
            + (if f.updated_since is Some { 1int } else { 0 });
        assert(ps[i] == ("custom_id"@, f.custom_id->0));
    }
}

/// Law: the invoice projection keeps every criterion that is set, with
/// its value unchanged, and yields nothing else.
pub proof fn lemma_invoice_projection(f: FilterView)
    ensures
        f.page is Some ==> f.all_pairs().contains(("page"@, f.page->0)),
        f.number is Some ==> f.all_pairs().contains(("number"@, f.number->0)),
        f.status is Some ==> f.all_pairs().contains(("status"@, f.status->0)),
        f.subject_id is Some ==> f.all_pairs().contains(("subject_id"@, f.subject_id->0)),
        f.is_empty() ==> f.all_pairs() == Seq::<(Seq<char>, Seq<char>)>::empty(),
{
    let ps = f.all_pairs();
    if f.page is Some {
        assert(ps[0] == ("page"@, f.page->0));
    }
    if f.number is Some {
        let i: int = (if f.page is Some { 1int } else { 0 }) + (if f.since is Some { 1int } else { 0 })
            + (if f.until is Some { 1int } else { 0 }) + (if f.updated_since is Some { 1int } else { 0 })
            + (if f.updated_until is Some { 1int } else { 0 }) + (if f.custom_id is Some { 1int } else { 0 });
        assert(ps[i] == ("number"@, f.number->0));
    }
    if f.status is Some {
        let i: int = (if f.page is Some { 1int } else { 0 }) + (if f.since is Some { 1int } else { 0 })
            + (if f.until is Some { 1int } else { 0 }) + (if f.updated_since is Some { 1int } else { 0 })
            + (if f.updated_until is Some { 1int } else { 0 }) + (if f.custom_id is Some { 1int } else { 0 })
            + (if f.number is Some { 1int } else { 0 });
        assert(ps[i] == ("status"@, f.status->0));
    }
    if f.subject_id is Some {
        let i: int = ps.len() - 1;
        assert(ps[i] == ("subject_id"@, f.subject_id->0));
    }
    if f.is_empty() {
        assert(f.all_pairs() =~= Seq::<(Seq<char>, Seq<char>)>::empty());
    }
}

} // verus!
