//! What holds of every job, whatever the service answers.

use vstd::prelude::*;
use crate::convert::convert_json;
use crate::convert::quoted_mime;
use crate::convert::ConvertView;
use crate::convert::Type;
use crate::error::local_error;
use crate::error::verdict;
use crate::error::Exchange;
use crate::error::TinifyErrorView;
use crate::error::Verdict;
use crate::http::get_request;
use crate::http::AuthView;
use crate::http::PayloadView;
use crate::http::RequestView;
use crate::http::ResponseView;
use crate::http::Verb;
use crate::http::API_USER;
use crate::resize::method_name;
use crate::resize::resize_json;
use crate::resize::Method;
use crate::resize::Resize;
use crate::source::buffered;
use crate::source::filed;
use crate::source::flushing;
use crate::source::received;
use crate::source::resized;
use crate::source::shrinking;
use crate::source::AwaitingView;
use crate::source::Fault;
use crate::source::OutputView;
use crate::source::PendingView;
use crate::source::RejectionView;
use crate::source::SourceView;
use crate::source::Stage;
use crate::source::StepView;
use crate::source::INVALID;
use crate::source::INVALID_RESIZE;
use crate::text::decimal;

verus! {

/// A resize by `Scale` with both a width and a height is refused locally,
/// as the caller's fault, whatever the job and the dimensions.
pub proof fn law_scale_with_both_dimensions_is_refused(source: SourceView, width: u32, height: u32)
    ensures
        resized(
            source,
            Resize { method: Method::Scale, width: Some(width), height: Some(height) },
        ) == Err::<SourceView, TinifyErrorView>(local_error(INVALID@, INVALID_RESIZE@)),
        local_error(INVALID@, INVALID_RESIZE@) is ClientError,
{
}

/// A resize is recorded exactly where `Scale` comes with one dimension, or
/// another method with both.
pub proof fn law_resize_is_recorded_iff_dimensions_suit(source: SourceView, resize: Resize)
    ensures
        resized(source, resize) is Ok <==> (if resize.method == Method::Scale {
            (resize.width is Some) != (resize.height is Some)
        } else {
            resize.width is Some && resize.height is Some
        }),
{
}

/// A convert with one candidate type carries it as a bare string.
pub proof fn law_single_type_is_a_bare_string(t: Type)
    ensures
        convert_json(ConvertView { types: seq![t] }) == "{\"type\":"@ + quoted_mime(t) + "}"@,
{
}

/// A convert with two candidate types carries them as an array, in the
/// caller's order.
pub proof fn law_two_types_are_an_array(first: Type, second: Type)
    ensures
        convert_json(ConvertView { types: seq![first, second] }) == "{\"type\":"@ + ("["@
            + quoted_mime(first) + ","@ + quoted_mime(second) + "]"@) + "}"@,
{
    let types = seq![first, second];
    assert(types.drop_last() =~= seq![first]);
    assert(crate::convert::mime_list(types.drop_last()) == quoted_mime(first));
    assert(crate::convert::mime_list(types) == quoted_mime(first) + ","@ + quoted_mime(second));
    assert("["@ + crate::convert::mime_list(types) + "]"@ =~= "["@ + quoted_mime(first) + ","@
        + quoted_mime(second) + "]"@);
}

/// What a job hands out to be written to a file is what it hands out as
/// its buffer: the same bytes where either hands out bytes, and the same
/// request where operations are pending.
pub proof fn law_file_holds_what_buffer_returns(source: SourceView)
    ensures
        buffered(source) is Bytes ==> filed(source) == buffered(source),
        filed(source) is Bytes ==> buffered(source) == filed(source),
        !source.operations.is_empty() ==> filed(source) == buffered(source),
{
}

/// A refused upload leaves the job as it was: for a job that has done
/// nothing yet, the buffer stays empty. This holds for every status that
/// is read as a refusal, 401 among them.
pub proof fn law_refused_upload_leaves_the_job_untouched(source: SourceView, response: ResponseView)
    requires
        verdict(Exchange::Shrink, response.status) != Verdict::Success,
    ensures
        verdict(Exchange::Shrink, 401) == Verdict::ClientError,
        received(PendingView { source, awaiting: AwaitingView::Shrink }, Ok(response))
            matches StepView::Rejected(after, rejection) && after == source && rejection.body
            == response.body,
        response.status == 401 ==> received(
            PendingView { source, awaiting: AwaitingView::Shrink },
            Ok(response),
        ) == StepView::Rejected(
            source,
            RejectionView { fault: Fault::Client, body: response.body },
        ),
{
}

/// An upload that is answered with a `Location` header is followed by a
/// plain GET of exactly that address, and the body of a successful answer
/// to it becomes the buffer, with the address as the new output.
pub proof fn law_location_is_followed(
    source: SourceView,
    upload: ResponseView,
    location: Seq<char>,
    download: ResponseView,
)
    requires
        verdict(Exchange::Shrink, upload.status) == Verdict::Success,
        upload.location == Some(Ok::<Seq<char>, reqwest::header::ToStrError>(location)),
        verdict(Exchange::Download, download.status) == Verdict::Success,
    ensures
        received(PendingView { source, awaiting: AwaitingView::Shrink }, Ok(upload))
            matches StepView::Send(next, request) && request == get_request(location)
            && request.url == location && request.verb == Verb::Get && received(
            next,
            Ok(download),
        ) == StepView::Ready(source.delivered(false, download.body, Some(location))),
        source.delivered(false, download.body, Some(location)).buffer == Some(download.body),
        source.delivered(false, download.body, Some(location)).output == Some(location),
{
}

/// An upload that is answered without a `Location` header has its result
/// in the body of the answer: the body becomes the buffer, and no output
/// remains.
pub proof fn law_body_without_location_is_the_result(source: SourceView, upload: ResponseView)
    requires
        verdict(Exchange::Shrink, upload.status) == Verdict::Success,
        upload.location is None,
    ensures
        received(PendingView { source, awaiting: AwaitingView::Shrink }, Ok(upload))
            == StepView::Ready(source.delivered(false, upload.body, None)),
        source.delivered(false, upload.body, None).buffer == Some(upload.body),
        source.delivered(false, upload.body, None).output is None,
{
}

/// After a successful upload the buffer is what the service sent: it is not
/// empty and no longer than the image wherever that holds of the service's
/// answer.
pub proof fn law_upload_keeps_what_the_service_sent(
    source: SourceView,
    target: Seq<char>,
    image: Seq<u8>,
    upload: ResponseView,
)
    requires
        verdict(Exchange::Shrink, upload.status) == Verdict::Success,
        upload.location is None,
        0 < upload.body.len() <= image.len(),
    ensures
        received(shrinking(source, target, image).0, Ok(upload)) matches StepView::Ready(after)
            && after.buffer matches Some(buffer) && 0 < buffer.len() <= image.len(),
{
}

/// Operations that were sent and answered are not sent again: the job that
/// is ready after them hands out the answer, and is in the stage `Flushed`.
pub proof fn law_flushed_operations_are_not_sent_again(source: SourceView, answer: ResponseView)
    requires
        flushing(source) is Send,
        verdict(Exchange::Operate, answer.status) == Verdict::Success,
        answer.location is None,
    ensures
        flushing(source) matches OutputView::Send(pending, _) && received(pending, Ok(answer))
            matches StepView::Ready(after) && after.operations.is_empty() && after.stage()
            == Stage::Flushed && buffered(after) == OutputView::Bytes(answer.body) && filed(after)
            == OutputView::Bytes(answer.body),
{
}

/// A failure of the HTTP layer, a refusal by the service, or an unreadable
/// header leaves the job as it was when the exchange began.
pub proof fn law_failure_leaves_the_job_untouched(
    pending: PendingView,
    event: Result<ResponseView, reqwest::Error>,
)
    ensures
        match received(pending, event) {
            StepView::Failed(after, _) => after == pending.source,
            StepView::Rejected(after, _) => after == pending.source,
            StepView::Send(next, _) => next.source == pending.source,
            StepView::Ready(_) => true,
        },
{
}

/// Every step that asks for another request brings the exchange nearer to
/// its end: no exchange takes more than three requests.
pub proof fn law_exchange_ends(pending: PendingView, event: Result<ResponseView, reqwest::Error>)
    ensures
        pending.awaiting.requests_left() <= 3,
        received(pending, event) matches StepView::Send(next, _) ==> next.awaiting.requests_left()
            < pending.awaiting.requests_left(),
{
}

/// A job that is ready has a buffer: the buffer is empty only before the
/// first successful upload.
pub proof fn law_ready_job_has_a_buffer(
    pending: PendingView,
    event: Result<ResponseView, reqwest::Error>,
)
    ensures
        received(pending, event) matches StepView::Ready(after) ==> after.buffer is Some
            && after.stage() != Stage::Uninitialized,
{
}

/// After a request with operations the output tells where the result is:
/// none where the answer held the result itself, the address of the
/// `Location` header where the result was downloaded from there.
pub proof fn law_output_tells_where_the_result_is(
    source: SourceView,
    answer: ResponseView,
    download: ResponseView,
)
    requires
        verdict(Exchange::Operate, answer.status) == Verdict::Success,
        verdict(Exchange::Download, download.status) == Verdict::Success,
    ensures
        match answer.location {
            None => received(PendingView { source, awaiting: AwaitingView::Operate }, Ok(answer))
                matches StepView::Ready(after) && after.output is None && after.buffer == Some(
                answer.body,
            ),
            Some(Ok(location)) => received(
                PendingView { source, awaiting: AwaitingView::Operate },
                Ok(answer),
            ) matches StepView::Send(next, request) && request == get_request(location)
                && received(next, Ok(download)) == StepView::Ready(
                source.delivered(true, download.body, Some(location)),
            ) && source.delivered(true, download.body, Some(location)).output == Some(location)
                && source.delivered(true, download.body, Some(location)).buffer == Some(
                download.body,
            ) && source.delivered(true, download.body, Some(location)).operations.is_empty(),
            Some(Err(e)) => received(
                PendingView { source, awaiting: AwaitingView::Operate },
                Ok(answer),
            ) == StepView::Failed(source, TinifyErrorView::ReqwestConvertError(e)),
        },
{
}

/// Every upload is one authenticated POST of the image as it is, with the
/// fixed user name, the key as the password, and the fixed deadline.
pub proof fn law_upload_is_one_authenticated_post(
    source: SourceView,
    target: Seq<char>,
    image: Seq<u8>,
)
    ensures
        shrinking(source, target, image).1 == (RequestView {
            verb: Verb::Post,
            url: target,
            payload: PayloadView::Bytes(image),
            auth: Some(AuthView { user: API_USER@, password: source.key }),
            timeout_secs: 300,
        }),
{
}

/// A dimension that is not set is left out of the wire form of a resize.
pub proof fn law_unset_dimension_is_left_out(method: Method, n: u32)
    ensures
        resize_json(Resize { method, width: Some(n), height: None }) == "{\"method\":\""@
            + method_name(method) + "\""@ + (",\""@ + "width"@ + "\":"@ + decimal(n as nat)) + "}"@,
        resize_json(Resize { method, width: None, height: Some(n) }) == "{\"method\":\""@
            + method_name(method) + "\""@ + (",\""@ + "height"@ + "\":"@ + decimal(n as nat)) + "}"@,
        resize_json(Resize { method, width: None, height: None }) == "{\"method\":\""@
            + method_name(method) + "\""@ + "}"@,
{
    let nothing = Seq::<char>::empty();
    let head = "{\"method\":\""@ + method_name(method) + "\""@;
    let width = ",\""@ + "width"@ + "\":"@ + decimal(n as nat);
    let height = ",\""@ + "height"@ + "\":"@ + decimal(n as nat);
    assert(head + width + nothing =~= head + width);
    assert(head + nothing + height =~= head + height);
    assert(head + nothing + nothing =~= head);
}

/// A job never hands out nothing as its buffer: it hands out bytes, asks
/// for a request, or refuses.
pub proof fn law_buffer_is_never_nothing(source: SourceView)
    ensures
        !(buffered(source) is Nothing),
        filed(source) is Nothing <==> source.operations.is_empty() && source.buffer is None,
{
}

} // verus!
