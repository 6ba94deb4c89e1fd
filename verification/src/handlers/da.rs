use crate::clients::da_clients::base16;
use crate::clients::da_clients::types::{DAError, DispatchResponse, InclusionData};
use crate::clients::da_clients::DataAvailabilityClient;
use crate::handlers::Reply;
use crate::services::da::DaSvc;
use vstd::prelude::*;
use vstd::string::StringExecFns;

verus! {

pub struct DispatchRequest {
    pub batch_number: u32,
    pub data: String,
}

pub struct InclusionResponse {
    pub data: String,
}

/// Whether `reply` refuses a request with the status 400 and the line `text`.
pub open spec fn refuses<T>(reply: Reply<T>, text: Seq<char>) -> bool {
    reply matches Reply::BadRequest(line) && line@ == text
}

/// Whether `reply` reports a failure with the status 500 and the line `text`.
pub open spec fn fails<T>(reply: Reply<T>, text: Seq<char>) -> bool {
    reply matches Reply::InternalServerError(line) && line@ == text
}

/// Whether `reply` answers a dispatch that came to `r`: the response itself,
/// or a failure that names the error.
pub open spec fn answers_dispatch(
    r: Result<DispatchResponse, DAError>,
    reply: Reply<DispatchResponse>,
) -> bool {
    match r {
        Ok(response) => reply == Reply::Json(response),
        Err(e) => fails(reply, "Error to dispatch the blob data: "@ + e.message_spec()),
    }
}

/// Whether `reply` answers a fetch that came to `r`: the data in
/// hexadecimal, the status 404 where there is none, or a failure that names
/// the error.
pub open spec fn answers_inclusion(
    r: Result<Option<InclusionData>, DAError>,
    reply: Reply<InclusionResponse>,
) -> bool {
    match r {
        Ok(Some(inclusion)) => reply matches Reply::Json(response) && response.data@
            == base16::encoded(inclusion.data@),
        Ok(None) => reply is NotFound,
        Err(e) => fails(reply, "Error to fetch blob data: "@ + e.message_spec()),
    }
}

/// The batch number and the blob of a dispatch request, or the refusal of a
/// body that is no request (`payload` then holds why) and of data that is no
/// hexadecimal text.
pub fn dispatch_payload(payload: Result<DispatchRequest, String>) -> (r: Result<
    (u32, Vec<u8>),
    Reply<DispatchResponse>,
>)
    ensures
        match payload {
            Err(_) => r matches Err(reply) && refuses(reply, "Invalid JSON body"@),
            Ok(request) => if base16::is_hex(request.data@) {
                r matches Ok((batch_number, data)) && batch_number == request.batch_number
                    && data@ == base16::decoded(request.data@)
            } else {
                r matches Err(reply) && refuses(
                    reply,
                    "Invalid data format, must be a hex string"@,
                )
            },
        },
{
    let payload = match payload {
        Ok(payload) => payload,
        Err(_) => {
            return Err(Reply::BadRequest(String::from_str("Invalid JSON body")));
        },
    };
    match base16::decode(payload.data.as_str()) {
        Ok(data) => Ok((payload.batch_number, data)),
        Err(_) => Err(
            Reply::BadRequest(String::from_str("Invalid data format, must be a hex string")),
        ),
    }
}

/// The answer to a dispatch that came to `result`.
pub fn dispatch_reply(result: Result<DispatchResponse, DAError>) -> (reply: Reply<DispatchResponse>)
    ensures
        answers_dispatch(result, reply),
{
    match result {
        Ok(response) => Reply::Json(response),
        Err(err) => Reply::InternalServerError(
            String::from_str("Error to dispatch the blob data: ").concat(err.message().as_str()),
        ),
    }
}

/// The answer to a fetch that came to `result`.
pub fn inclusion_reply(result: Result<Option<InclusionData>, DAError>) -> (reply: Reply<
    InclusionResponse,
>)
    ensures
        answers_inclusion(result, reply),
{
    match result {
        Ok(Some(data)) => Reply::Json(
            InclusionResponse { data: base16::encode(data.data.as_slice()) },
        ),
        Ok(None) => Reply::NotFound,
        Err(err) => Reply::InternalServerError(
            String::from_str("Error to fetch blob data: ").concat(err.message().as_str()),
        ),
    }
}

/// POST /dispatch
///
/// A request that is refused leaves the client as it was. Any other is
/// dispatched, and answered as the dispatch went.
pub fn dispatch_handler<C: DataAvailabilityClient>(
    svc: &mut DaSvc<C>,
    payload: Result<DispatchRequest, String>,
) -> (reply: Reply<DispatchResponse>)
    ensures
        match payload {
            Err(_) => refuses(reply, "Invalid JSON body"@) && final(svc).client()
                == old(svc).client(),
            Ok(request) => if base16::is_hex(request.data@) {
                exists|r: Result<DispatchResponse, DAError>|
                    #[trigger] answers_dispatch(r, reply) && old(svc).client().may_dispatch(
                        request.batch_number,
                        base16::decoded(request.data@),
                        &final(svc).client(),
                        r,
                    )
            } else {
                refuses(reply, "Invalid data format, must be a hex string"@)
                    && final(svc).client() == old(svc).client()
            },
        },
{
    let (batch_number, data) = match dispatch_payload(payload) {
        Ok(request) => request,
        Err(reply) => {
            return reply;
        },
    };
    let result = svc.dispatch_blob(batch_number, data);
    let reply = dispatch_reply(result);
    assert(answers_dispatch(result, reply));
    reply
}

/// GET /inclusion/:blob_id
pub fn inclusion_handler<C: DataAvailabilityClient>(svc: &DaSvc<C>, blob_id: &str) -> (reply: Reply<
    InclusionResponse,
>)
    ensures
        exists|r: Result<Option<InclusionData>, DAError>|
            #[trigger] answers_inclusion(r, reply) && svc.client().may_fetch(blob_id@, r),
{
    let result = svc.get_inclusion_data(blob_id);
    let reply = inclusion_reply(result);
    assert(answers_inclusion(result, reply));
    reply
}

} // verus!
