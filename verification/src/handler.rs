//! The send-message decision logic: validate the payload, project it into
//! the persisted record and the response, and settle the outcome of the
//! store write.
//!
//! One invocation yields exactly one [`SendPlan`], and only its `Store`
//! variant carries a record, so at most one store write is ever requested
//! per invocation.
use vstd::prelude::*;
use crate::codec::dec_str_of;
use crate::codec::decimal_string;
use crate::ksuid::decoded_seconds;
use crate::ksuid::mint_message_id;
use crate::ksuid::valid_ksuid;
use crate::model::MessageInput;
use crate::model::MessageResponse;
use crate::model::ResolverInput;

verus! {

/// Why an invocation was skipped without a store write.
pub enum SkipReason {
    MissingText,
    MissingImage,
}

/// The single row written to the document store, with every attribute in
/// the stored form: strings as strings, `read` as a boolean, `created_on`
/// as the decimal string of the embedded second.
pub struct PersistedRecord {
    pub pk: String,
    pub sk: String,
    pub id: String,
    pub message_type: String,
    pub sender_id: String,
    pub receiver_id: String,
    pub text: String,
    pub image: String,
    pub read: bool,
    pub created_on: String,
}

/// What one invocation asks of its surroundings: either log the skip
/// reason and answer empty, or write the record and answer with the
/// response if the write succeeds.
pub enum SendPlan {
    Skip(SkipReason),
    Store(PersistedRecord, MessageResponse),
}

/// The projection rule for the persisted record: partition key the literal
/// `"MESSAGE#"`, sort key that literal followed by the identifier, `read`
/// always stored false, `created_on` stored as a decimal string.
pub open spec fn record_matches(
    rec: PersistedRecord,
    input: MessageInput,
    id: Seq<char>,
    created_on: int,
) -> bool {
    &&& rec.pk@ == "MESSAGE#"@
    &&& rec.sk@ == "MESSAGE#"@ + id
    &&& rec.id@ == id
    &&& rec.message_type@ == input.message_type@
    &&& rec.sender_id@ == input.sender_id@
    &&& rec.receiver_id@ == input.receiver_id@
    &&& (input.text matches Some(t) && rec.text@ == t@)
    &&& (input.image matches Some(im) && rec.image@ == im@)
    &&& rec.read == false
    &&& rec.created_on@ == dec_str_of(created_on)
}

/// The projection rule for the response: the input echoed back with the
/// identifier and its embedded second, `text` and `image` present, and
/// `read` echoing the input flag (unlike the stored attribute).
pub open spec fn response_matches(
    resp: MessageResponse,
    input: MessageInput,
    id: Seq<char>,
    created_on: int,
) -> bool {
    &&& resp.id@ == id
    &&& resp.message_type@ == input.message_type@
    &&& resp.sender_id@ == input.sender_id@
    &&& resp.receiver_id@ == input.receiver_id@
    &&& (input.text matches Some(t) && resp.text matches Some(rt) && rt@ == t@)
    &&& (input.image matches Some(im) && resp.image matches Some(ri) && ri@ == im@)
    &&& resp.read == input.read
    &&& resp.created_on == created_on
}

/// What a plan must say of the input it was made from.
pub open spec fn plan_matches(
    plan: SendPlan,
    input: MessageInput,
    id: Seq<char>,
    created_on: int,
) -> bool {
    match plan {
        SendPlan::Skip(reason) => {
            &&& (input.text is None || input.image is None)
            &&& (reason == SkipReason::MissingText <==> input.text is None)
            &&& (reason == SkipReason::MissingImage <==> input.text is Some
                && input.image is None)
        },
        SendPlan::Store(rec, resp) => {
            &&& input.text is Some
            &&& input.image is Some
            &&& record_matches(rec, input, id, created_on)
            &&& response_matches(resp, input, id, created_on)
        },
    }
}

/// Decide one invocation for a given identifier and embedded second:
/// checks `text` first, then `image`, and otherwise builds the record and
/// the response.
pub fn plan_send(input: &MessageInput, id: String, created_on: i64) -> (r: SendPlan)
    requires
        created_on >= 0,
    ensures
        plan_matches(r, *input, id@, created_on as int),
{
    let text = match &input.text {
        Some(t) => t,
        None => {
            return SendPlan::Skip(SkipReason::MissingText);
        },
    };
    let image = match &input.image {
        Some(im) => im,
        None => {
            return SendPlan::Skip(SkipReason::MissingImage);
        },
    };
    let mut sk = String::from_str("MESSAGE#");
    sk.append(id.as_str());
    let rec = PersistedRecord {
        pk: String::from_str("MESSAGE#"),
        sk,
        id: id.clone(),
        message_type: input.message_type.clone(),
        sender_id: input.sender_id.clone(),
        receiver_id: input.receiver_id.clone(),
        text: text.clone(),
        image: image.clone(),
        read: false,
        created_on: decimal_string(created_on as u64),
    };
    let resp = MessageResponse {
        id,
        message_type: input.message_type.clone(),
        sender_id: input.sender_id.clone(),
        receiver_id: input.receiver_id.clone(),
        text: Some(text.clone()),
        read: input.read,
        image: Some(image.clone()),
        created_on,
    };
    SendPlan::Store(rec, resp)
}

/// Handle one message payload: mint the identifier from the clock and plan
/// the invocation. In a `Store` plan the response's `created_on` is exactly
/// the second embedded in its identifier.
pub fn begin_send(input: &MessageInput) -> (r: SendPlan)
    ensures
        (r matches SendPlan::Store(rec, resp) ==> {
            &&& valid_ksuid(resp.id@)
            &&& resp.created_on as int == decoded_seconds(resp.id@)
            &&& plan_matches(r, *input, resp.id@, resp.created_on as int)
        }),
        (r matches SendPlan::Skip(reason) ==> {
            &&& (input.text is None || input.image is None)
            &&& (reason == SkipReason::MissingText <==> input.text is None)
            &&& (reason == SkipReason::MissingImage <==> input.text is Some
                && input.image is None)
        }),
        (r is Store <==> input.text is Some && input.image is Some),
{
    let (id, created_on) = mint_message_id();
    plan_send(input, id, created_on)
}

/// Handle one resolver event: only `arguments.input` is consumed; `field`
/// and `source` are ignored.
pub fn handle_event(event: &ResolverInput<MessageInput>) -> (r: SendPlan)
    ensures
        (r matches SendPlan::Store(rec, resp) ==> {
            &&& valid_ksuid(resp.id@)
            &&& resp.created_on as int == decoded_seconds(resp.id@)
            &&& plan_matches(r, event.arguments.input, resp.id@, resp.created_on as int)
        }),
        (r matches SendPlan::Skip(reason) ==> {
            &&& (event.arguments.input.text is None || event.arguments.input.image is None)
            &&& (reason == SkipReason::MissingText <==> event.arguments.input.text is None)
            &&& (reason == SkipReason::MissingImage <==> event.arguments.input.text is Some
                && event.arguments.input.image is None)
        }),
        (r is Store <==> event.arguments.input.text is Some
            && event.arguments.input.image is Some),
{
    begin_send(&event.arguments.input)
}

/// Settle the outcome of the store write: a failed write is swallowed and
/// the invocation answers empty; a successful one answers the response.
pub fn conclude_send(resp: MessageResponse, put_ok: bool) -> (r: Option<MessageResponse>)
    ensures
        put_ok ==> r == Some(resp),
        !put_ok ==> r is None,
{
    if put_ok {
        Some(resp)
    } else {
        None
    }
}

/// The diagnostic line logged for a skipped invocation.
pub fn skip_log_line(reason: &SkipReason) -> (r: &'static str)
    ensures
        *reason == SkipReason::MissingText ==> r@ == "No message text provided"@,
        *reason == SkipReason::MissingImage ==> r@ == "No image url provided"@,
{
    match reason {
        SkipReason::MissingText => "No message text provided",
        SkipReason::MissingImage => "No image url provided",
    }
}

/// The diagnostic line logged when the store write fails, carrying the
/// store's own error text.
pub fn store_failure_log_line(err: &str) -> (r: String)
    ensures
        r@ == "An error occured while sending message "@ + err@,
{
    let mut line = String::from_str("An error occured while sending message ");
    line.append(err);
    line
}

} // verus!
