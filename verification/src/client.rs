//! The request engine: entity registry, authenticated request
//! planning, response evaluation and the pagination cursor.
//!
//! Network transport is none of this module's business. Every
//! operation is planned here as a `RequestPlan` (method, URL, query)
//! with an exact contract; the caller issues the exchange and hands
//! the outcome back to `evaluate_status` / `error_response`, which
//! classify it. A list or search outcome becomes a `PagedResponse`,
//! whose navigation decisions are likewise taken here.

use crate::error::{spec_classify, FakturoidError, Kind, UnknownError};
use crate::filters::{Filter, FilterBuilder, FilterView, InvoiceFilter, NoneFilter, SubjectFilter};
use crate::links::{links_of, parse_links};
use crate::models::InvoiceAction;
use crate::strutil::{dec_str_int, i32_dec_str, str_eq};
use vstd::prelude::*;
use vstd::string::StringExecFns;

verus! {

/// HTTP status codes in the 2xx range denote success.
pub open spec fn spec_is_success(status: u16) -> bool {
    200 <= status < 300
}

/// Executable check matching `spec_is_success`.
pub fn is_success(status: u16) -> (r: bool)
    ensures
        r == spec_is_success(status),
{
    200 <= status && status < 300
}

/// The statically known remote resource kinds.
#[derive(Debug, Clone, Copy, PartialEq, Eq, Structural)]
pub enum EntityKind {
    Account,
    Subject,
    Invoice,
}

impl EntityKind {
    /// The resource path segment of the kind.
    pub open spec fn spec_url_part(self) -> Seq<char> {
        match self {
            EntityKind::Account => "account"@,
            EntityKind::Subject => "subjects"@,
            EntityKind::Invoice => "invoices"@,
        }
    }

    /// The resource path segment of the kind.
    pub fn url_part(self) -> (r: &'static str)
        ensures
            r@ == self.spec_url_part(),
    {
        match self {
            EntityKind::Account => "account",
            EntityKind::Subject => "subjects",
            EntityKind::Invoice => "invoices",
        }
    }

    /// The query pairs the kind's projection policy yields for a
    /// filter: invoices keep everything, subjects drop the excluded
    /// keys, the account keeps nothing.
    pub open spec fn spec_filter_pairs(self, f: FilterView) -> Seq<(Seq<char>, Seq<char>)> {
        match self {
            EntityKind::Account => Seq::empty(),
            EntityKind::Subject => f.subject_pairs(),
            EntityKind::Invoice => f.all_pairs(),
        }
    }

    /// Projects a filter through the kind's own filter builder.
    pub fn build_filter(self, filter: Filter) -> (r: Vec<(String, String)>)
        ensures
            r.deep_view() == self.spec_filter_pairs(filter@),
    {
        match self {
            EntityKind::Account => (NoneFilter).build(filter),
            EntityKind::Subject => (SubjectFilter).build(filter),
            EntityKind::Invoice => (InvoiceFilter).build(filter),
        }
    }
}

/// Object in fakturoid.cz: associates a decoded entity type with its
/// statically known resource kind.
pub trait Entity {
    /// The resource kind the type belongs to.
    fn kind() -> EntityKind;
}

/// Actions on invoices: a named state transition fired on one entity.
pub trait Action {
    /// The resource path segment the action is fired under.
    spec fn spec_url_part() -> Seq<char>;

    /// The query pairs that select the action.
    spec fn spec_query(&self) -> Seq<(Seq<char>, Seq<char>)>;

    /// The resource path segment the action is fired under.
    fn url_part() -> (r: &'static str)
        ensures
            r@ == Self::spec_url_part(),
    ;

    /// The query pairs that select the action.
    fn query(&self) -> (r: Vec<(String, String)>)
        ensures
            r.deep_view() == self.spec_query(),
    ;
}

impl Action for InvoiceAction {
    open spec fn spec_url_part() -> Seq<char> {
        "invoices"@
    }

    /// The action is selected by a single `event` query parameter
    /// holding the action's wire name.
    open spec fn spec_query(&self) -> Seq<(Seq<char>, Seq<char>)> {
        seq![("event"@, self.spec_name())]
    }

    fn url_part() -> (r: &'static str)
        ensures
            r@ == Self::spec_url_part(),
    {
        "invoices"
    }

    fn query(&self) -> (r: Vec<(String, String)>)
        ensures
            r.deep_view() == self.spec_query(),
    {
        let mut v: Vec<(String, String)> = Vec::new();
        v.push((String::from_str("event"), String::from_str(self.name())));
        proof {
            assert(v.deep_view() =~= seq![("event"@, self.spec_name())]);
        }
        v
    }
}

/// The HTTP method of a planned request.
#[derive(Debug, Clone, Copy, PartialEq, Eq, Structural)]
pub enum Method {
    Get,
    Post,
    Patch,
    Delete,
}

/// One fully planned request: everything the transport needs besides
/// the credentials, which the client value carries. An empty `query`
/// means no query string at all; `sends_entity` says whether the
/// serialized entity body accompanies the request.
#[derive(Debug)]
pub struct RequestPlan {
    pub method: Method,
    pub url: String,
    pub query: Vec<(String, String)>,
    pub sends_entity: bool,
}

/// Fakturoid client: the immutable per-account configuration every
/// request is planned and authenticated with.
#[derive(Debug, Clone)]
pub struct Fakturoid {
    user: String,
    password: String,
    slug: String,
    user_agent: Option<String>,
}

impl Fakturoid {
    /// The login name of the HTTP basic authentication pair.
    pub closed spec fn spec_user(self) -> Seq<char> {
        self.user@
    }

    /// The credential of the HTTP basic authentication pair.
    pub closed spec fn spec_password(self) -> Seq<char> {
        self.password@
    }

    /// The per-account identifier every URL is built around.
    pub closed spec fn spec_slug(self) -> Seq<char> {
        self.slug@
    }

    /// The configured client-agent string, if any.
    pub closed spec fn spec_user_agent(self) -> Option<Seq<char>> {
        match self.user_agent {
            Some(ua) => Some(ua@),
            None => None,
        }
    }

    /// Creates new instance of client. If `user_agent` is `None`,
    /// "Rust API client (pepa@bukova.info)" will be used.
    pub fn new(user: &str, password: &str, slug: &str, user_agent: Option<&str>) -> (r: Self)
        ensures
            r.spec_user() == user@,
            r.spec_password() == password@,
            r.spec_slug() == slug@,
            r.spec_user_agent() == (match user_agent {
                Some(ua) => Some(ua@),
                None => None::<Seq<char>>,
            }),
    {
        Fakturoid {
            user: user.to_owned(),
            password: password.to_owned(),
            slug: slug.to_owned(),
            user_agent: match user_agent {
                Some(ua) => Some(ua.to_owned()),
                None => None,
            },
        }
    }

    /// The login name, for the transport's basic-auth header.
    pub fn user(&self) -> (r: &String)
        ensures
            r@ == self.spec_user(),
    {
        &self.user
    }

    /// The credential, for the transport's basic-auth header.
    pub fn password(&self) -> (r: &String)
        ensures
            r@ == self.spec_password(),
    {
        &self.password
    }

    /// The client-agent string actually sent: the configured one, or
    /// the fixed default.
    pub open spec fn spec_agent_header(self) -> Seq<char> {
        match self.spec_user_agent() {
            Some(ua) => ua,
            None => "Rust API client (pepa@bukova.info)"@,
        }
    }

    /// The client-agent string actually sent.
    pub fn user_agent(&self) -> (r: String)
        ensures
            r@ == self.spec_agent_header(),
    {
        match self.user_agent.as_ref() {
            Some(ua) => ua.clone(),
            None => String::from_str("Rust API client (pepa@bukova.info)"),
        }
    }

    /// The account root every resource path is appended to.
    pub open spec fn spec_url_first(self) -> Seq<char> {
        "https://app.fakturoid.cz/api/v2/accounts/"@ + self.spec_slug() + "/"@
    }

    /// The collection or singleton path of an entity kind.
    pub open spec fn spec_entity_url(self, part: Seq<char>) -> Seq<char> {
        self.spec_url_first() + part + ".json"@
    }

    /// The by-id path of one entity.
    pub open spec fn spec_url_with_id(self, part: Seq<char>, id: int) -> Seq<char> {
        self.spec_url_first() + part + "/"@ + dec_str_int(id) + ".json"@
    }

    /// The fulltext-search path of an entity kind.
    pub open spec fn spec_search_url(self, part: Seq<char>) -> Seq<char> {
        self.spec_url_first() + part + "/search.json"@
    }

    /// The action-firing path of one entity.
    pub open spec fn spec_fire_url(self, part: Seq<char>, id: int) -> Seq<char> {
        self.spec_url_first() + part + "/"@ + dec_str_int(id) + "/fire.json"@
    }

    fn url_first(&self) -> (r: String)
        ensures
            r@ == self.spec_url_first(),
    {
        let mut s = String::from_str("https://app.fakturoid.cz/api/v2/accounts/");
        s.append(self.slug.as_str());
        s.append("/");
        s
    }

    fn url_with_id(&self, entity_part: &str, id: i32) -> (r: String)
        ensures
            r@ == self.spec_url_with_id(entity_part@, id as int),
    {
        let mut s = self.url_first();
        s.append(entity_part);
        s.append("/");
        let num = i32_dec_str(id);
        s.append(num.as_str());
        s.append(".json");
        s
    }

    fn entity_url(&self, entity_part: &str) -> (r: String)
        ensures
            r@ == self.spec_entity_url(entity_part@),
    {
        let mut s = self.url_first();
        s.append(entity_part);
        s.append(".json");
        s
    }

    /// Plans the GET of one entity by id.
    pub fn detail_plan(&self, kind: EntityKind, id: i32) -> (r: RequestPlan)
        ensures
            r.method == Method::Get,
            r.url@ == self.spec_url_with_id(kind.spec_url_part(), id as int),
            r.query.deep_view() == Seq::<(Seq<char>, Seq<char>)>::empty(),
            !r.sends_entity,
    {
        let r = RequestPlan {
            method: Method::Get,
            url: self.url_with_id(kind.url_part(), id),
            query: Vec::new(),
            sends_entity: false,
        };
        proof {
            assert(r.query.deep_view() =~= Seq::<(Seq<char>, Seq<char>)>::empty());
        }
        r
    }

    /// Plans the GET of the account singleton, which has no id path.
    pub fn account_plan(&self) -> (r: RequestPlan)
        ensures
            r.method == Method::Get,
            r.url@ == self.spec_entity_url(EntityKind::Account.spec_url_part()),
            r.query.deep_view() == Seq::<(Seq<char>, Seq<char>)>::empty(),
            !r.sends_entity,
    {
        let r = RequestPlan {
            method: Method::Get,
            url: self.entity_url(EntityKind::Account.url_part()),
            query: Vec::new(),
            sends_entity: false,
        };
        proof {
            assert(r.query.deep_view() =~= Seq::<(Seq<char>, Seq<char>)>::empty());
        }
        r
    }

    /// Plans the PATCH that updates one entity; the serialized entity
    /// accompanies the request.
    pub fn update_plan(&self, kind: EntityKind, id: i32) -> (r: RequestPlan)
        ensures
            r.method == Method::Patch,
            r.url@ == self.spec_url_with_id(kind.spec_url_part(), id as int),
            r.query.deep_view() == Seq::<(Seq<char>, Seq<char>)>::empty(),
            r.sends_entity,
    {
        let r = RequestPlan {
            method: Method::Patch,
            url: self.url_with_id(kind.url_part(), id),
            query: Vec::new(),
            sends_entity: true,
        };
        proof {
            assert(r.query.deep_view() =~= Seq::<(Seq<char>, Seq<char>)>::empty());
        }
        r
    }

    /// Plans the DELETE of one entity.
    pub fn delete_plan(&self, kind: EntityKind, id: i32) -> (r: RequestPlan)
        ensures
            r.method == Method::Delete,
            r.url@ == self.spec_url_with_id(kind.spec_url_part(), id as int),
            r.query.deep_view() == Seq::<(Seq<char>, Seq<char>)>::empty(),
            !r.sends_entity,
    {
        let r = RequestPlan {
            method: Method::Delete,
            url: self.url_with_id(kind.url_part(), id),
            query: Vec::new(),
            sends_entity: false,
        };
        proof {
            assert(r.query.deep_view() =~= Seq::<(Seq<char>, Seq<char>)>::empty());
        }
        r
    }

    /// Plans the POST that creates an entity at the collection path;
    /// the serialized entity accompanies the request.
    pub fn create_plan(&self, kind: EntityKind) -> (r: RequestPlan)
        ensures
            r.method == Method::Post,
            r.url@ == self.spec_entity_url(kind.spec_url_part()),
            r.query.deep_view() == Seq::<(Seq<char>, Seq<char>)>::empty(),
            r.sends_entity,
    {
        let r = RequestPlan {
            method: Method::Post,
            url: self.entity_url(kind.url_part()),
            query: Vec::new(),
            sends_entity: true,
        };
        proof {
            assert(r.query.deep_view() =~= Seq::<(Seq<char>, Seq<char>)>::empty());
        }
        r
    }

    /// Plans the GET of a collection. An absent or empty filter is
    /// submitted as no query at all; otherwise the filter is projected
    /// through the kind's own policy.
    pub fn list_plan(&self, kind: EntityKind, filter: Option<Filter>) -> (r: RequestPlan)
        ensures
            r.method == Method::Get,
            r.url@ == self.spec_entity_url(kind.spec_url_part()),
            !r.sends_entity,
            match filter {
                Some(f) => r.query.deep_view() == (if f@.is_empty() {
                    Seq::<(Seq<char>, Seq<char>)>::empty()
                } else {
                    kind.spec_filter_pairs(f@)
                }),
                None => r.query.deep_view() == Seq::<(Seq<char>, Seq<char>)>::empty(),
            },
    {
        let query: Vec<(String, String)> = match filter {
            Some(f) => {
                if !f.is_empty() {
                    kind.build_filter(f)
                } else {
                    let q: Vec<(String, String)> = Vec::new();
                    proof {
                        assert(q.deep_view() =~= Seq::<(Seq<char>, Seq<char>)>::empty());
                    }
                    q
                }
            },
            None => {
                let q: Vec<(String, String)> = Vec::new();
                proof {
                    assert(q.deep_view() =~= Seq::<(Seq<char>, Seq<char>)>::empty());
                }
                q
            },
        };
        RequestPlan {
            method: Method::Get,
            url: self.entity_url(kind.url_part()),
            query,
            sends_entity: false,
        }
    }

    /// Plans the GET of a fulltext search: the collection's `search`
    /// sub-path with the single `query` parameter.
    pub fn fulltext_plan(&self, kind: EntityKind, search: &str) -> (r: RequestPlan)
        ensures
            r.method == Method::Get,
            r.url@ == self.spec_search_url(kind.spec_url_part()),
            r.query.deep_view() == seq![("query"@, search@)],
            !r.sends_entity,
    {
        let mut s = self.url_first();
        s.append(kind.url_part());
        s.append("/search.json");
        let mut query: Vec<(String, String)> = Vec::new();
        query.push((String::from_str("query"), search.to_owned()));
        proof {
            assert(query.deep_view() =~= seq![("query"@, search@)]);
        }
        RequestPlan { method: Method::Get, url: s, query, sends_entity: false }
    }

    /// Plans the POST that fires an action on one entity: the
    /// id-scoped `fire` path with the action's selecting query. Any
    /// extra data of the action is appended by the caller as further
    /// query parameters.
    pub fn action_plan<A: Action>(&self, id: i32, action: &A) -> (r: RequestPlan)
        ensures
            r.method == Method::Post,
            r.url@ == self.spec_fire_url(A::spec_url_part(), id as int),
            r.query.deep_view() == action.spec_query(),
            !r.sends_entity,
    {
        let mut s = self.url_first();
        s.append(A::url_part());
        s.append("/");
        let num = i32_dec_str(id);
        s.append(num.as_str());
        s.append("/fire.json");
        RequestPlan { method: Method::Post, url: s, query: action.query(), sends_entity: false }
    }
}

// ---------------------------------------------------------------------------
// Response evaluation
// ---------------------------------------------------------------------------

/// Whether the caller must attempt to decode the response body as the
/// structured validation document before classifying: only a 422
/// carries one.
pub fn needs_validation_detail(status: u16) -> (r: bool)
    ensures
        r == (status == 422),
{
    status == 422
}

/// The statuses that denote an actual HTTP failure. A response that
/// reached the error path with any other status — a success, an
/// informational or a redirect status — is an internal inconsistency:
/// the library asserts this cannot occur.
pub open spec fn spec_is_error_status(status: u16) -> bool {
    400 <= status < 600
}

/// Classifies a failed exchange. `status_message` describes the HTTP
/// failure; for a 422 the caller passes the outcome of decoding the
/// body as the validation document (`Err` holds the decode failure's
/// description). A status that is no HTTP failure at all arriving
/// here denotes a bug of the library and classifies as `Other` with a
/// diagnostic naming the operation.
pub fn error_response(
    status: u16,
    status_message: String,
    validation: Option<Result<Vec<(String, Vec<String>)>, String>>,
) -> (r: FakturoidError)
    ensures
        r.wf(),
        !spec_is_error_status(status) ==> r.spec_kind() == Kind::Other && r.spec_status() is None
            && r.spec_message() == "Something is wrong in function "@ + "evaluate_response"@,
        spec_is_error_status(status) && status == 422 ==> match validation {
            Some(Ok(d)) => r.spec_kind() == Kind::UnprocessableEntity && r.spec_status() == Some(
                422u16,
            ) && r.spec_data() == Some(d.deep_view()) && r.spec_message() == status_message@,
            Some(Err(m)) => r.spec_kind() == Kind::Other && r.spec_status() is None
                && r.spec_data() is None && r.spec_message() == m@,
            None => r.spec_kind() == Kind::Other && r.spec_status() is None
                && r.spec_data() is None && r.spec_message() == status_message@,
        },
        spec_is_error_status(status) && status != 422 ==> r.spec_kind() == spec_classify(status)
            && r.spec_status() == Some(status) && r.spec_data() is None && r.spec_message()
            == status_message@,
{
    if status < 400 || 600 <= status {
        let op = UnknownError::new("evaluate_response");
        FakturoidError::from_failure(op.message())
    } else if status == 422 {
        match validation {
            Some(decoded) => match decoded {
                Ok(d) => FakturoidError::from_data(d, status_message),
                Err(m) => FakturoidError::from_failure(m),
            },
            None => FakturoidError::from_failure(status_message),
        }
    } else {
        FakturoidError::from_status(status, status_message)
    }
}

/// Evaluates a status-only outcome, as `delete` and `action` do:
/// success is `Ok` exactly on a 2xx status, and everything else
/// classifies through `error_response`.
pub fn evaluate_status(
    status: u16,
    status_message: String,
    validation: Option<Result<Vec<(String, Vec<String>)>, String>>,
) -> (r: Result<(), FakturoidError>)
    ensures
        r is Ok <==> spec_is_success(status),
        r matches Err(e) ==> e.wf() && (status == 422 ==> match validation {
            Some(Ok(d)) => e.spec_kind() == Kind::UnprocessableEntity && e.spec_data() == Some(
                d.deep_view(),
            ),
            Some(Err(m)) => e.spec_kind() == Kind::Other && e.spec_message() == m@,
            None => e.spec_kind() == Kind::Other,
        }) && (spec_is_error_status(status) && status != 422 ==> e.spec_kind() == spec_classify(
            status,
        ) && e.spec_status() == Some(status)) && (!spec_is_error_status(status) ==> e.spec_kind()
            == Kind::Other),
{
    if is_success(status) {
        Ok(())
    } else {
        Err(error_response(status, status_message, validation))
    }
}

// ---------------------------------------------------------------------------
// The pagination cursor
// ---------------------------------------------------------------------------

/// The URL a relation name maps to: the latest entry of that name
/// wins, as repeated header entries overwrite earlier ones.
pub open spec fn lookup_rel(links: Seq<(Seq<char>, Seq<char>)>, rel: Seq<char>) -> Option<
    Seq<char>,
>
    decreases links.len(),
{
    if links.len() == 0 {
        None
    } else if links.last().0 == rel {
        Some(links.last().1)
    } else {
        lookup_rel(links.drop_last(), rel)
    }
}

proof fn lemma_lookup_ignores_tail(s: Seq<(Seq<char>, Seq<char>)>, rel: Seq<char>, i: int)
    requires
        0 <= i <= s.len(),
        forall|j: int| i <= j < s.len() ==> s[j].0 != rel,
    ensures
        lookup_rel(s, rel) == lookup_rel(s.subrange(0, i), rel),
    decreases s.len() - i,
{
    if i == s.len() {
        assert(s.subrange(0, s.len() as int) =~= s);
    } else {
        assert(s.last().0 != rel);
        lemma_lookup_ignores_tail(s.drop_last(), rel, i);
        assert(s.drop_last().subrange(0, i) =~= s.subrange(0, i));
    }
}

fn find_rel(links: &Vec<(String, String)>, rel: &str) -> (r: Option<String>)
    ensures
        match r {
            Some(u) => lookup_rel(links.deep_view(), rel@) == Some(u@),
            None => lookup_rel(links.deep_view(), rel@) is None,
        },
{
    let mut i: usize = links.len();
    loop
        invariant
            i <= links@.len(),
            forall|j: int| i <= j < links.deep_view().len() ==> links.deep_view()[j].0 != rel@,
        ensures
            i == 0,
            forall|j: int| 0 <= j < links.deep_view().len() ==> links.deep_view()[j].0 != rel@,
        decreases i,
    {
        if i == 0 {
            break;
        }
        i -= 1;
        if str_eq(links[i].0.as_str(), rel) {
            let u = links[i].1.clone();
            proof {
                let dv = links.deep_view();
                assert(dv[i as int] == (links@[i as int].0@, links@[i as int].1@));
                lemma_lookup_ignores_tail(dv, rel@, i + 1);
                let pref = dv.subrange(0, i + 1);
                assert(pref.last() == dv[i as int]);
                assert(lookup_rel(pref, rel@) == Some(dv[i as int].1));
            }
            return Some(u);
        }
        proof {
            assert(links.deep_view()[i as int] == (links@[i as int].0@, links@[i as int].1@));
        }
    }
    proof {
        lemma_lookup_ignores_tail(links.deep_view(), rel@, 0);
        assert(links.deep_view().subrange(0, 0) =~= Seq::<(Seq<char>, Seq<char>)>::empty());
    }
    None
}

/// Response from list or fulltext method: one page of decoded
/// entities, the client configuration needed to fetch sibling pages,
/// and the relation links of the page.
#[derive(Debug)]
pub struct PagedResponse<T> {
    collection: Vec<T>,
    client: Fakturoid,
    links: Vec<(String, String)>,
}

/// What a navigation call decides: stay on the present page — the
/// requested relation is absent, the terminal condition at either end
/// of the sequence, not an error — or fetch the given URL with the
/// given client configuration to build the next page.
pub enum PageNav<T> {
    Stay(PagedResponse<T>),
    Fetch(Fakturoid, String),
}

impl<T> PagedResponse<T> {
    /// The decoded entities of the current page.
    pub closed spec fn spec_data(self) -> Seq<T> {
        self.collection@
    }

    /// The client configuration carried for sibling fetches.
    pub closed spec fn spec_client(self) -> Fakturoid {
        self.client
    }

    /// The relation/URL pairs of the current page.
    pub closed spec fn spec_links(self) -> Seq<(Seq<char>, Seq<char>)> {
        self.links.deep_view()
    }

    /// Builds the page from decoded entities and the raw pagination
    /// header, when the response carried one. The relation mapping is
    /// derived from this header alone: absence of the header means a
    /// single-page result with no relations at all.
    pub fn new(collection: Vec<T>, client: Fakturoid, link_header: Option<&str>) -> (r: Self)
        ensures
            r.spec_data() == collection@,
            r.spec_client() == client,
            match link_header {
                Some(h) => r.spec_links() == links_of(h@),
                None => r.spec_links() == Seq::<(Seq<char>, Seq<char>)>::empty(),
            },
    {
        let links = match link_header {
            Some(h) => parse_links(h),
            None => {
                let q: Vec<(String, String)> = Vec::new();
                proof {
                    assert(q.deep_view() =~= Seq::<(Seq<char>, Seq<char>)>::empty());
                }
                q
            },
        };
        PagedResponse { collection, client, links }
    }

    /// Reference to vector of items. There could be max 20 items.
    pub fn data(&self) -> (r: &Vec<T>)
        ensures
            r@ == self.spec_data(),
    {
        &self.collection
    }

    /// True if next page exists.
    pub fn has_next(&self) -> (r: bool)
        ensures
            r == (lookup_rel(self.spec_links(), "next"@) is Some),
    {
        match find_rel(&self.links, "next") {
            Some(_) => true,
            None => false,
        }
    }

    /// True if previous page exists.
    pub fn has_prev(&self) -> (r: bool)
        ensures
            r == (lookup_rel(self.spec_links(), "prev"@) is Some),
    {
        match find_rel(&self.links, "prev") {
            Some(_) => true,
            None => false,
        }
    }

    /// Decides a navigation step: when the relation is absent the very
    /// same page is kept, with no request at all; otherwise the mapped
    /// URL is to be fetched.
    fn page(self, rel: &str) -> (r: PageNav<T>)
        ensures
            lookup_rel(self.spec_links(), rel@) is None ==> r == PageNav::Stay(self),
            (match lookup_rel(self.spec_links(), rel@) {
                Some(u) => r matches PageNav::Fetch(c, url) && c == self.spec_client() && url@
                    == u,
                None => true,
            }),
    {
        match find_rel(&self.links, rel) {
            Some(url) => PageNav::Fetch(self.client, url),
            None => PageNav::Stay(self),
        }
    }

    /// Navigation towards the first page.
    pub fn first_page(self) -> (r: PageNav<T>)
        ensures
            lookup_rel(self.spec_links(), "first"@) is None ==> r == PageNav::Stay(self),
            (match lookup_rel(self.spec_links(), "first"@) {
                Some(u) => r matches PageNav::Fetch(c, url) && c == self.spec_client() && url@
                    == u,
                None => true,
            }),
    {
        self.page("first")
    }

    /// Navigation towards the previous page.
    pub fn prev_page(self) -> (r: PageNav<T>)
        ensures
            lookup_rel(self.spec_links(), "prev"@) is None ==> r == PageNav::Stay(self),
            (match lookup_rel(self.spec_links(), "prev"@) {
                Some(u) => r matches PageNav::Fetch(c, url) && c == self.spec_client() && url@
                    == u,
                None => true,
            }),
    {
        self.page("prev")
    }

    /// Navigation towards the next page.
    pub fn next_page(self) -> (r: PageNav<T>)
        ensures
            lookup_rel(self.spec_links(), "next"@) is None ==> r == PageNav::Stay(self),
            (match lookup_rel(self.spec_links(), "next"@) {
                Some(u) => r matches PageNav::Fetch(c, url) && c == self.spec_client() && url@
                    == u,
                None => true,
            }),
    {
        self.page("next")
    }

    /// Navigation towards the last page.
    pub fn last_page(self) -> (r: PageNav<T>)
        ensures
            lookup_rel(self.spec_links(), "last"@) is None ==> r == PageNav::Stay(self),
            (match lookup_rel(self.spec_links(), "last"@) {
                Some(u) => r matches PageNav::Fetch(c, url) && c == self.spec_client() && url@
                    == u,
                None => true,
            }),
    {
        self.page("last")
    }
}

// ---------------------------------------------------------------------------
// Laws
// ---------------------------------------------------------------------------

/// Law: an empty relation mapping maps no relation at all, so every
/// navigation call on a page built without a pagination header stays
/// on the same page, and `has_next`/`has_prev` are false there.
pub proof fn lemma_empty_links_no_relation(rel: Seq<char>)
    ensures
        lookup_rel(Seq::empty(), rel) is None,
{
}

/// Law: the account kind accepts no filter at all: its projection of
/// any filter, empty or not, yields no query pairs.
pub proof fn lemma_account_projection(f: FilterView)
    ensures
        EntityKind::Account.spec_filter_pairs(f) == Seq::<(Seq<char>, Seq<char>)>::empty(),
{
}

} // verus!
