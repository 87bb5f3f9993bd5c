//! The failure taxonomy callers branch on.
//!
//! A failed HTTP exchange is classified by a fixed status table into a
//! `Kind`; a 422 response additionally carries the structured
//! field-to-messages validation detail when its body could be decoded.

use crate::strutil::dec_str_nat;
use crate::strutil::u32_dec_str;
use vstd::prelude::*;
use vstd::string::StringExecFns;

verus! {

/// The closed classification of failure causes.
#[derive(Debug, Clone, Copy, PartialEq, Eq, Structural)]
pub enum Kind {
    ServiceError,
    TooManyRequests,
    PaymentRequired,
    UnprocessableEntity,
    Forbidden,
    EntityDoesNotExists,
    Other,
}

/// The kind an HTTP error status classifies to: 5xx is a service
/// failure, the listed client statuses have kinds of their own, and
/// everything else is `Other`.
pub open spec fn spec_classify(status: u16) -> Kind {
    if 500 <= status < 600 {
        Kind::ServiceError
    } else if status == 429 {
        Kind::TooManyRequests
    } else if status == 402 {
        Kind::PaymentRequired
    } else if status == 422 {
        Kind::UnprocessableEntity
    } else if status == 403 {
        Kind::Forbidden
    } else if status == 404 {
        Kind::EntityDoesNotExists
    } else {
        Kind::Other
    }
}

/// Classifies an HTTP status by the fixed table.
pub fn classify_status(status: u16) -> (k: Kind)
    ensures
        k == spec_classify(status),
{
    if 500 <= status && status < 600 {
        Kind::ServiceError
    } else if status == 429 {
        Kind::TooManyRequests
    } else if status == 402 {
        Kind::PaymentRequired
    } else if status == 422 {
        Kind::UnprocessableEntity
    } else if status == 403 {
        Kind::Forbidden
    } else if status == 404 {
        Kind::EntityDoesNotExists
    } else {
        Kind::Other
    }
}

/// An internal consistency failure: a response reached the error path
/// although its status reports success. This denotes a bug in the
/// library, not a remote condition, and names the operation at fault.
#[derive(Debug, Clone)]
pub struct UnknownError(String);

impl View for UnknownError {
    type V = Seq<char>;

    closed spec fn view(&self) -> Seq<char> {
        self.0@
    }
}

impl UnknownError {
    /// Records the name of the operation that misbehaved.
    pub fn new(fn_name: &str) -> (r: Self)
        ensures
            r@ == fn_name@,
    {
        UnknownError(fn_name.to_owned())
    }

    /// The human-readable rendering of the failure.
    pub fn message(&self) -> (r: String)
        ensures
            r@ == "Something is wrong in function "@ + self@,
    {
        let mut s = String::from_str("Something is wrong in function ");
        s.append(self.0.as_str());
        s
    }
}

// ---------------------------------------------------------------------------
// Rendering of the validation detail
// ---------------------------------------------------------------------------

/// The violation messages of one field, joined by `, `.
pub open spec fn join_msgs(msgs: Seq<Seq<char>>) -> Seq<char>
    decreases msgs.len(),
{
    if msgs.len() == 0 {
        Seq::empty()
    } else if msgs.len() == 1 {
        msgs[0]
    } else {
        msgs[0] + ", "@ + join_msgs(msgs.drop_first())
    }
}

/// The rendering of one field's entry: `name: [messages]`.
pub open spec fn render_entry(e: (Seq<char>, Seq<Seq<char>>)) -> Seq<char> {
    e.0 + ": ["@ + join_msgs(e.1) + "]"@
}

/// The rendering of the whole mapping, entries joined by `; `.
pub open spec fn render_entries(entries: Seq<(Seq<char>, Seq<Seq<char>>)>) -> Seq<char>
    decreases entries.len(),
{
    if entries.len() == 0 {
        Seq::empty()
    } else if entries.len() == 1 {
        render_entry(entries[0])
    } else {
        render_entry(entries[0]) + "; "@ + render_entries(entries.drop_first())
    }
}

fn render_msgs_from(v: &Vec<String>, i: usize) -> (r: String)
    requires
        i <= v@.len(),
    ensures
        r@ == join_msgs(v.deep_view().skip(i as int)),
    decreases v@.len() - i,
{
    let n = v.len();
    if i == n {
        let r = String::new();
        proof {
            assert(v.deep_view().skip(i as int) =~= Seq::<Seq<char>>::empty());
        }
        r
    } else if i + 1 == n {
        let r = v[i].clone();
        proof {
            let rest = v.deep_view().skip(i as int);
            assert(rest.len() == 1);
            assert(rest[0] == v.deep_view()[i as int]);
        }
        r
    } else {
        let mut s = v[i].clone();
        s.append(", ");
        let tail = render_msgs_from(v, i + 1);
        s.append(tail.as_str());
        proof {
            let rest = v.deep_view().skip(i as int);
            assert(rest[0] == v.deep_view()[i as int]);
            assert(rest.drop_first() =~= v.deep_view().skip(i + 1));
            assert(s@ =~= join_msgs(rest));
        }
        s
    }
}

fn render_entries_from(v: &Vec<(String, Vec<String>)>, i: usize) -> (r: String)
    requires
        i <= v@.len(),
    ensures
        r@ == render_entries(v.deep_view().skip(i as int)),
    decreases v@.len() - i,
{
    let n = v.len();
    if i == n {
        let r = String::new();
        proof {
            assert(v.deep_view().skip(i as int) =~= Seq::<(Seq<char>, Seq<Seq<char>>)>::empty());
        }
        r
    } else {
        let mut s = v[i].0.clone();
        s.append(": [");
        let msgs = render_msgs_from(&v[i].1, 0);
        s.append(msgs.as_str());
        s.append("]");
        proof {
            assert(v@[i as int].1.deep_view().skip(0) =~= v.deep_view()[i as int].1);
            assert(s@ =~= render_entry(v.deep_view()[i as int]));
        }
        if i + 1 < n {
            s.append("; ");
            let tail = render_entries_from(v, i + 1);
            s.append(tail.as_str());
        }
        proof {
            let rest = v.deep_view().skip(i as int);
            assert(rest[0] == v.deep_view()[i as int]);
            assert(rest.drop_first() =~= v.deep_view().skip(i + 1));
            if i + 1 == n {
                assert(rest.len() == 1);
            }
            assert(s@ =~= render_entries(rest));
        }
        s
    }
}

// ---------------------------------------------------------------------------
// The error value
// ---------------------------------------------------------------------------

/// A classified failure of one operation against the remote service.
///
/// Exactly one underlying description is carried: the message of the
/// HTTP or transport failure, or of a local decoding failure. A
/// validation failure additionally carries the field-to-messages
/// detail of the 422 body.
#[derive(Debug)]
pub struct FakturoidError {
    kind: Kind,
    status: Option<u16>,
    message: String,
    data_errors: Option<Vec<(String, Vec<String>)>>,
}

impl FakturoidError {
    /// The classification of this failure.
    pub closed spec fn spec_kind(self) -> Kind {
        self.kind
    }

    /// The HTTP status the failure was classified from, if any.
    pub closed spec fn spec_status(self) -> Option<u16> {
        self.status
    }

    /// The description of the underlying failure.
    pub closed spec fn spec_message(self) -> Seq<char> {
        self.message@
    }

    /// The structured validation detail, if any.
    pub closed spec fn spec_data(self) -> Option<Seq<(Seq<char>, Seq<Seq<char>>)>> {
        match self.data_errors {
            Some(d) => Some(d.deep_view()),
            None => None,
        }
    }

    /// The shape every constructed error has: the kind agrees with the
    /// classification table, and validation detail occurs exactly on a
    /// classified 422.
    pub open spec fn wf(self) -> bool {
        &&& (match self.spec_status() {
            Some(s) => self.spec_kind() == spec_classify(s),
            None => self.spec_kind() == Kind::Other,
        })
        &&& (self.spec_data() is Some ==> self.spec_kind() == Kind::UnprocessableEntity
            && self.spec_status() == Some(422u16))
    }

    /// A failure classified from an HTTP error status; the message
    /// describes the underlying HTTP failure.
    pub fn from_status(status: u16, message: String) -> (r: Self)
        ensures
            r.spec_kind() == spec_classify(status),
            r.spec_status() == Some(status),
            r.spec_message() == message@,
            r.spec_data() is None,
            r.wf(),
    {
        FakturoidError {
            kind: classify_status(status),
            status: Some(status),
            message,
            data_errors: None,
        }
    }

    /// A failure with no HTTP status: transport trouble, a body that
    /// would not decode, or an internal inconsistency.
    pub fn from_failure(message: String) -> (r: Self)
        ensures
            r.spec_kind() == Kind::Other,
            r.spec_status() is None,
            r.spec_message() == message@,
            r.spec_data() is None,
            r.wf(),
    {
        FakturoidError { kind: Kind::Other, status: None, message, data_errors: None }
    }

    /// A 422 validation failure carrying the decoded field detail; the
    /// message describes the underlying HTTP failure.
    pub fn from_data(errors: Vec<(String, Vec<String>)>, message: String) -> (r: Self)
        ensures
            r.spec_kind() == Kind::UnprocessableEntity,
            r.spec_status() == Some(422u16),
            r.spec_message() == message@,
            r.spec_data() == Some(errors.deep_view()),
            r.wf(),
    {
        FakturoidError {
            kind: Kind::UnprocessableEntity,
            status: Some(422),
            message,
            data_errors: Some(errors),
        }
    }

    /// Error kind.
    pub fn kind(&self) -> (r: &Kind)
        ensures
            *r == self.spec_kind(),
    {
        &self.kind
    }

    /// The HTTP status of the failure, when one was received.
    pub fn status(&self) -> (r: Option<u16>)
        ensures
            r == self.spec_status(),
    {
        self.status
    }

    /// The validation detail of a 422 response, as a reference.
    pub fn data_errors(&self) -> (r: Option<&Vec<(String, Vec<String>)>>)
        ensures
            match r {
                Some(d) => self.spec_data() == Some(d.deep_view()),
                None => self.spec_data() is None,
            },
    {
        self.data_errors.as_ref()
    }

    /// Consumes the error and hands out the validation detail of a 422
    /// response, if any.
    pub fn into_data_errors(self) -> (r: Option<Vec<(String, Vec<String>)>>)
        ensures
            match r {
                Some(d) => self.spec_data() == Some(d.deep_view()),
                None => self.spec_data() is None,
            },
    {
        self.data_errors
    }

    /// The fixed human-readable rendering of each kind; a validation
    /// failure renders its field detail, and `Other` defers to the
    /// underlying failure's own description.
    pub open spec fn spec_describe(self) -> Seq<char> {
        match self.spec_kind() {
            Kind::ServiceError => match self.spec_status() {
                Some(s) => "Service Unavailable. Status is: "@ + dec_str_nat(s as nat),
                None => "Service error"@,
            },
            Kind::TooManyRequests => "Request limit exceeded. Limit is 200 per one minute."@,
            Kind::PaymentRequired => "Payment required"@,
            Kind::UnprocessableEntity => match self.spec_data() {
                Some(d) => "Errors in input data: "@ + render_entries(d),
                None => "Malformed input data."@,
            },
            Kind::Forbidden => "Forbidden operation"@,
            Kind::EntityDoesNotExists => "Entity does not exists"@,
            Kind::Other => self.spec_message(),
        }
    }

    /// Renders the failure for human eyes.
    pub fn describe(&self) -> (r: String)
        ensures
            r@ == self.spec_describe(),
    {
        match self.kind {
            Kind::ServiceError => {
                match self.status {
                    Some(s) => {
                        let mut out = String::from_str("Service Unavailable. Status is: ");
                        let num = u32_dec_str(s as u32);
                        out.append(num.as_str());
                        out
                    },
                    None => String::from_str("Service error"),
                }
            },
            Kind::TooManyRequests => String::from_str(
                "Request limit exceeded. Limit is 200 per one minute.",
            ),
            Kind::PaymentRequired => String::from_str("Payment required"),
            Kind::UnprocessableEntity => {
                match self.data_errors.as_ref() {
                    Some(d) => {
                        let mut out = String::from_str("Errors in input data: ");
                        let body = render_entries_from(d, 0);
                        out.append(body.as_str());
                        proof {
                            assert(d.deep_view().skip(0) =~= d.deep_view());
                        }
                        out
                    },
                    None => String::from_str("Malformed input data."),
                }
            },
            Kind::Forbidden => String::from_str("Forbidden operation"),
            Kind::EntityDoesNotExists => String::from_str("Entity does not exists"),
            Kind::Other => self.message.clone(),
        }
    }
}

// ---------------------------------------------------------------------------
// Laws
// ---------------------------------------------------------------------------

/// Law: the classification table is exhaustive and fixed. A 404 maps
/// to a missing entity, 429 to the request limit, 402 to payment,
/// 403 to a forbidden operation, 422 to rejected input, every 5xx to a
/// service failure, and any other status to `Other`.
pub proof fn lemma_classification_table(status: u16)
    ensures
        status == 404 ==> spec_classify(status) == Kind::EntityDoesNotExists,
        status == 429 ==> spec_classify(status) == Kind::TooManyRequests,
        status == 402 ==> spec_classify(status) == Kind::PaymentRequired,
        status == 403 ==> spec_classify(status) == Kind::Forbidden,
        status == 422 ==> spec_classify(status) == Kind::UnprocessableEntity,
        500 <= status < 600 ==> spec_classify(status) == Kind::ServiceError,
        !(500 <= status < 600) && !(status == 429 || status == 402 || status == 422 || status
            == 403 || status == 404) ==> spec_classify(status) == Kind::Other,
{
}

} // verus!
