//! Plain data carried by the client: the closed enumerations the remote
//! service understands, the attachment descriptor it returns, and the
//! construction of the `data:` URI an attachment is uploaded as.

use crate::strutil::digit_char;
use vstd::prelude::*;
use vstd::string::StringExecFns;

verus! {

// ---------------------------------------------------------------------------
// Timestamps
// ---------------------------------------------------------------------------

/// A calendar time with a fixed offset from UTC, held as plain fields.
/// Time-zone arithmetic is none of this library's business: callers
/// supply the local calendar values and the offset, and the library
/// only renders them in the RFC 3339 shape the remote service expects.
#[derive(Debug, Clone, Copy, PartialEq, Eq, Structural)]
pub struct Timestamp {
    pub year: u16,
    pub month: u8,
    pub day: u8,
    pub hour: u8,
    pub minute: u8,
    pub second: u8,
    /// Offset from UTC in minutes, east positive.
    pub offset_minutes: i16,
}

/// The two-digit decimal rendering of a number below one hundred.
pub open spec fn two_digits(n: nat) -> Seq<char> {
    seq![digit_char(n / 10), digit_char(n % 10)]
}

/// The four-digit decimal rendering of a number below ten thousand.
pub open spec fn four_digits(n: nat) -> Seq<char> {
    two_digits(n / 100) + two_digits(n % 100)
}

impl Timestamp {
    /// Field ranges under which the RFC 3339 rendering is well formed.
    pub open spec fn wf(self) -> bool {
        &&& self.year <= 9999
        &&& 1 <= self.month <= 12
        &&& 1 <= self.day <= 31
        &&& self.hour <= 23
        &&& self.minute <= 59
        &&& self.second <= 60
        &&& -(24 * 60) < self.offset_minutes < 24 * 60
    }

    /// The `+hh:mm` or `-hh:mm` rendering of the UTC offset.
    pub open spec fn spec_offset(self) -> Seq<char> {
        if self.offset_minutes >= 0 {
            seq!['+'] + two_digits((self.offset_minutes / 60) as nat) + seq![':'] + two_digits(
                (self.offset_minutes % 60) as nat,
            )
        } else {
            seq!['-'] + two_digits(((-self.offset_minutes) / 60) as nat) + seq![':'] + two_digits(
                ((-self.offset_minutes) % 60) as nat,
            )
        }
    }

    /// The RFC 3339 rendering `yyyy-mm-ddThh:mm:ss+hh:mm`.
    pub open spec fn spec_rfc3339(self) -> Seq<char> {
        four_digits(self.year as nat) + seq!['-'] + two_digits(self.month as nat) + seq!['-']
            + two_digits(self.day as nat) + seq!['T'] + two_digits(self.hour as nat) + seq![':']
            + two_digits(self.minute as nat) + seq![':'] + two_digits(self.second as nat)
            + self.spec_offset()
    }

    /// Renders the timestamp in the RFC 3339 shape.
    pub fn rfc3339(&self) -> (r: String)
        requires
            self.wf(),
        ensures
            r@ == self.spec_rfc3339(),
    {
        let mut s = push_four_digits(self.year);
        s.append("-");
        push_two_digits(&mut s, self.month as u16);
        s.append("-");
        push_two_digits(&mut s, self.day as u16);
        s.append("T");
        push_two_digits(&mut s, self.hour as u16);
        s.append(":");
        push_two_digits(&mut s, self.minute as u16);
        s.append(":");
        push_two_digits(&mut s, self.second as u16);
        if self.offset_minutes >= 0 {
            s.append("+");
            push_two_digits(&mut s, (self.offset_minutes / 60) as u16);
            s.append(":");
            push_two_digits(&mut s, (self.offset_minutes % 60) as u16);
        } else {
            s.append("-");
            push_two_digits(&mut s, ((-self.offset_minutes) / 60) as u16);
            s.append(":");
            push_two_digits(&mut s, ((-self.offset_minutes) % 60) as u16);
        }
        proof {
            reveal_strlit("-");
            reveal_strlit("T");
            reveal_strlit(":");
            reveal_strlit("+");
            assert(s@ =~= self.spec_rfc3339());
        }
        s
    }
}

fn digit_of(d: u16) -> (r: &'static str)
    requires
        d < 10,
    ensures
        r@ == seq![digit_char(d as nat)],
{
    proof {
        reveal_strlit("0");
        reveal_strlit("1");
        reveal_strlit("2");
        reveal_strlit("3");
        reveal_strlit("4");
        reveal_strlit("5");
        reveal_strlit("6");
        reveal_strlit("7");
        reveal_strlit("8");
        reveal_strlit("9");
    }
    let r = if d == 0 {
        "0"
    } else if d == 1 {
        "1"
    } else if d == 2 {
        "2"
    } else if d == 3 {
        "3"
    } else if d == 4 {
        "4"
    } else if d == 5 {
        "5"
    } else if d == 6 {
        "6"
    } else if d == 7 {
        "7"
    } else if d == 8 {
        "8"
    } else {
        "9"
    };
    proof {
        assert(r@ =~= seq![digit_char(d as nat)]);
    }
    r
}

fn push_two_digits(s: &mut String, n: u16)
    requires
        n < 100,
    ensures
        final(s)@ == old(s)@ + two_digits(n as nat),
{
    s.append(digit_of(n / 10));
    s.append(digit_of(n % 10));
    proof {
        assert(s@ =~= old(s)@ + two_digits(n as nat));
    }
}

fn push_four_digits(n: u16) -> (r: String)
    requires
        n < 10000,
    ensures
        r@ == four_digits(n as nat),
{
    let mut s = String::new();
    push_two_digits(&mut s, n / 100);
    push_two_digits(&mut s, n % 100);
    proof {
        assert(s@ =~= four_digits(n as nat));
    }
    s
}

/// Whether a subject is a customer, a supplier, or both.
#[derive(Debug, Clone, Copy, PartialEq, Eq, Structural)]
pub enum SubjectType {
    Customer,
    Supplier,
    Both,
}

/// The lifecycle state of an invoice.
#[derive(Debug, Clone, Copy, PartialEq, Eq, Structural)]
pub enum InvoiceState {
    Open,
    Sent,
    Overdue,
    Paid,
    Cancelled,
}

impl InvoiceState {
    /// The wire spelling of the state, as the remote service expects it
    /// in the `status` query parameter.
    pub open spec fn spec_name(self) -> Seq<char> {
        match self {
            InvoiceState::Open => "open"@,
            InvoiceState::Sent => "sent"@,
            InvoiceState::Overdue => "overdue"@,
            InvoiceState::Paid => "paid"@,
            InvoiceState::Cancelled => "cancelled"@,
        }
    }

    /// The wire spelling of the state.
    pub fn name(&self) -> (r: &'static str)
        ensures
            r@ == self.spec_name(),
    {
        match self {
            InvoiceState::Open => "open",
            InvoiceState::Sent => "sent",
            InvoiceState::Overdue => "overdue",
            InvoiceState::Paid => "paid",
            InvoiceState::Cancelled => "cancelled",
        }
    }
}

/// How an invoice is paid.
#[derive(Debug, Clone, Copy, PartialEq, Eq, Structural)]
pub enum PaymentMethod {
    Bank,
    Cash,
    Cod,
    Paypal,
    Card,
}

/// The language an invoice is issued in.
#[derive(Debug, Clone, Copy, PartialEq, Eq, Structural)]
pub enum InvoiceLanguage {
    Cz,
    Sk,
    En,
    De,
    Fr,
    It,
    Es,
    Ru,
    Hu,
    Pl,
    Ro,
}

/// Whether line prices are entered without VAT or derived from a total
/// that includes it.
#[derive(Debug, Clone, Copy, PartialEq, Eq, Structural)]
pub enum VatPriceMode {
    WithoutVat,
    FromTotalWithVat,
}

/// The registration state of a sales record.
#[derive(Debug, Clone, Copy, PartialEq, Eq, Structural)]
pub enum EetStatus {
    Waiting,
    Pkp,
    Fik,
}

/// An attachment as the remote service describes one it already stores.
#[derive(Debug, Clone)]
pub struct RemoteAttachment {
    pub file_name: String,
    pub content_type: String,
    pub download_url: String,
}

/// A named state transition that can be fired on an invoice.
#[derive(Debug, Clone, Copy, PartialEq, Eq, Structural)]
pub enum InvoiceAction {
    MarkAsSent,
    Deliver,
    Pay,
    PayProforma,
    PayPartialProforma,
    RemovePayment,
    DeliverReminder,
    Cancel,
    UndoCancel,
    Lock,
    Unlock,
}

impl InvoiceAction {
    /// The wire spelling of the action, passed as the `event` query
    /// parameter when the action is fired.
    pub open spec fn spec_name(self) -> Seq<char> {
        match self {
            InvoiceAction::MarkAsSent => "mark_as_sent"@,
            InvoiceAction::Deliver => "deliver"@,
            InvoiceAction::Pay => "pay"@,
            InvoiceAction::PayProforma => "pay_proforma"@,
            InvoiceAction::PayPartialProforma => "pay_partial_proforma"@,
            InvoiceAction::RemovePayment => "remove_payment"@,
            InvoiceAction::DeliverReminder => "deliver_reminder"@,
            InvoiceAction::Cancel => "cancel"@,
            InvoiceAction::UndoCancel => "undo_cancel"@,
            InvoiceAction::Lock => "lock"@,
            InvoiceAction::Unlock => "unlock"@,
        }
    }

    /// The wire spelling of the action.
    pub fn name(&self) -> (r: &'static str)
        ensures
            r@ == self.spec_name(),
    {
        match self {
            InvoiceAction::MarkAsSent => "mark_as_sent",
            InvoiceAction::Deliver => "deliver",
            InvoiceAction::Pay => "pay",
            InvoiceAction::PayProforma => "pay_proforma",
            InvoiceAction::PayPartialProforma => "pay_partial_proforma",
            InvoiceAction::RemovePayment => "remove_payment",
            InvoiceAction::DeliverReminder => "deliver_reminder",
            InvoiceAction::Cancel => "cancel",
            InvoiceAction::UndoCancel => "undo_cancel",
            InvoiceAction::Lock => "lock",
            InvoiceAction::Unlock => "unlock",
        }
    }
}

// ---------------------------------------------------------------------------
// Attachment upload encoding
// ---------------------------------------------------------------------------

/// The unpadded standard-alphabet base64 encoding of the bytes.
pub uninterp spec fn base64_nopad_of(b: Seq<u8>) -> Seq<char>;

/// Relies on base64::encode_config with the STANDARD_NO_PAD config:
/// the encoding is a function of the bytes alone; each complete chunk
/// of three input bytes yields four characters, and a final partial
/// chunk yields one character more than its byte count.
#[verifier::external_body]
fn base64_nopad(content: &[u8]) -> (r: String)
    requires
        4 * (content@.len() / 3) + 3 <= usize::MAX,
    ensures
        r@ == base64_nopad_of(content@),
        r@.len() == 4 * (content@.len() / 3) + (if content@.len() % 3 == 0 {
            0int
        } else {
            (content@.len() % 3 + 1) as int
        }),
{
    base64::encode_config(content, base64::STANDARD_NO_PAD)
}

/// Relies on tree_magic::from_u8: picks a MIME type for the bytes by
/// magic-number inspection. The answer may depend on the system's MIME
/// database, so nothing is assumed about it.
#[verifier::external_body]
fn detect_mime(content: &[u8]) -> (r: String)
{
    tree_magic::from_u8(content)
}

/// Builds the `data:<mime>;base64,<payload>` URI for the given MIME
/// type and content bytes.
pub fn data_uri_with_mime(mime: &str, content: &[u8]) -> (r: String)
    requires
        4 * (content@.len() / 3) + 3 <= usize::MAX,
    ensures
        r@ == "data:"@ + mime@ + ";base64,"@ + base64_nopad_of(content@),
{
    let mut s = String::from_str("data:");
    s.append(mime);
    s.append(";base64,");
    let payload = base64_nopad(content);
    s.append(payload.as_str());
    s
}

/// The `data:` URI an invoice attachment is uploaded as: the detected
/// MIME type of the bytes, then their unpadded base64 encoding.
pub fn attachment_data_uri(content: &[u8]) -> (r: String)
    requires
        4 * (content@.len() / 3) + 3 <= usize::MAX,
    ensures
        exists|mime: Seq<char>|
            r@ == "data:"@ + mime + ";base64,"@ + base64_nopad_of(content@),
{
    let mime = detect_mime(content);
    let r = data_uri_with_mime(mime.as_str(), content);
    proof {
        assert(r@ == "data:"@ + mime@ + ";base64,"@ + base64_nopad_of(content@));
    }
    r
}

} // verus!
