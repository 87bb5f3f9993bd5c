use fakturoid::client::Action;
use fakturoid::models::{
    attachment_data_uri, data_uri_with_mime, InvoiceAction, InvoiceState, RemoteAttachment,
    SubjectType,
};

#[test]
fn invoice_state_wire_names() {
    assert_eq!(InvoiceState::Open.name(), "open");
    assert_eq!(InvoiceState::Sent.name(), "sent");
    assert_eq!(InvoiceState::Overdue.name(), "overdue");
    assert_eq!(InvoiceState::Paid.name(), "paid");
    assert_eq!(InvoiceState::Cancelled.name(), "cancelled");
}

#[test]
fn invoice_action_wire_names() {
    assert_eq!(InvoiceAction::MarkAsSent.name(), "mark_as_sent");
    assert_eq!(InvoiceAction::PayPartialProforma.name(), "pay_partial_proforma");
    assert_eq!(InvoiceAction::UndoCancel.name(), "undo_cancel");
    assert_eq!(InvoiceAction::Unlock.name(), "unlock");
}

#[test]
fn invoice_action_query_selects_event() {
    assert_eq!(
        InvoiceAction::Pay.query(),
        vec![("event".to_string(), "pay".to_string())]
    );
    assert_eq!(<InvoiceAction as Action>::url_part(), "invoices");
}

#[test]
fn data_uri_encodes_mime_and_payload() {
    assert_eq!(data_uri_with_mime("text/plain", b"ab"), "data:text/plain;base64,YWI");
    assert_eq!(data_uri_with_mime("text/plain", b""), "data:text/plain;base64,");
    assert_eq!(
        data_uri_with_mime("application/octet-stream", &[0u8, 255, 16]),
        "data:application/octet-stream;base64,AP8Q"
    );
}

#[test]
fn attachment_uri_detects_png() {
    let png_magic: [u8; 8] = [0x89, 0x50, 0x4E, 0x47, 0x0D, 0x0A, 0x1A, 0x0A];
    let uri = attachment_data_uri(&png_magic);
    assert_eq!(uri, "data:image/png;base64,iVBORw0KGgo");
}

#[test]
fn enums_and_attachment_carry_plain_values() {
    let attachment = RemoteAttachment {
        file_name: "invoice.pdf".to_string(),
        content_type: "application/pdf".to_string(),
        download_url: "https://x/d".to_string(),
    };
    assert_eq!(attachment.clone().file_name, "invoice.pdf");
    assert_eq!(SubjectType::Customer, SubjectType::Customer);
    assert_ne!(SubjectType::Supplier, SubjectType::Both);
}
