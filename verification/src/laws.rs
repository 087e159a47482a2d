//! What holds of every response that the gateway builds, and of every run
//! of its listeners.

use vstd::prelude::*;
use vstd::utf8::encode_utf8;
use vstd::utf8::is_ascii_chars_encode_utf8;
use crate::header::header_char_valid;
use crate::header::header_value_valid;
use crate::header::lemma_header_value_valid_by_chars;
use crate::listener::ListenerEventView;
use crate::listener::ListenerStateView;
use crate::listener::ServerConfigView;
use crate::media_type::guessed_media_type;
use crate::media_type::text_plain;
use crate::outcome::FetchOutcome;
use crate::outcome::FetchOutcomeView;
use crate::response::content_type_name;
use crate::response::found_response_view;
use crate::response::lemma_status_response_well_formed;
use crate::response::lemma_text_plain_is_valid;
use crate::response::location_name;
use crate::response::object_response_view;
use crate::response::status_response_view;
use crate::response::HttpResponse;
use crate::runtime::all_terminated;
use crate::runtime::delivered;
use crate::runtime::overall_result;
use crate::runtime::run;
use crate::runtime::state_after;
use crate::runtime::started;
use crate::runtime::ListenerView;
use crate::status::lemma_reason_phrase_is_plain_text;
use crate::status::reason_phrase;
use crate::status::FOUND;
use crate::status::INTERNAL_SERVER_ERROR;
use crate::status::NOT_FOUND;
use crate::status::OK;

verus! {

/// The response for a bare status code keeps the code, whatever it is, is
/// declared as `text/plain`, and has a body that is not empty and holds
/// printable ASCII only.
pub proof fn lemma_status_response_is_plain_text(status_code: u16)
    ensures
        status_response_view(status_code).status == status_code,
        status_response_view(status_code).header(content_type_name()) == Some(text_plain()),
        status_response_view(status_code).body.len() > 0,
        forall|i: int|
            0 <= i < status_response_view(status_code).body.len() ==> 32 <= #[trigger] status_response_view(
                status_code,
            ).body[i] <= 126,
{
    lemma_status_response_well_formed(status_code);
    lemma_reason_phrase_is_plain_text(status_code);
    is_ascii_chars_encode_utf8(reason_phrase(status_code));
    let phrase = reason_phrase(status_code);
    let body = status_response_view(status_code).body;
    assert forall|i: int| 0 <= i < body.len() implies 32 <= #[trigger] body[i] <= 126 by {
        assert(' ' <= phrase[i] <= '~');
        assert(body[i] == phrase[i] as u8);
    }
}

/// An object that was found is sent with status 200, its own bytes as the
/// body, even where there are none, and the content type guessed from its
/// key, provided that the guess can be sent as a header value.
pub proof fn lemma_found_response_has_guessed_type(bytes: Seq<u8>, media_type: Seq<char>)
    requires
        header_value_valid(media_type),
    ensures
        found_response_view(bytes, Some(media_type)).status == OK,
        found_response_view(bytes, Some(media_type)).body == bytes,
        found_response_view(bytes, Some(media_type)).header(content_type_name()) == Some(
            media_type,
        ),
{
    let r = found_response_view(bytes, Some(media_type));
    assert(r.headers[0].0 == content_type_name());
}

/// An object that was found under a key for which there is no guess is sent
/// as `text/plain`, with status 200 and its own bytes as the body.
pub proof fn lemma_found_response_falls_back_to_text_plain(bytes: Seq<u8>)
    ensures
        found_response_view(bytes, None).status == OK,
        found_response_view(bytes, None).body == bytes,
        found_response_view(bytes, None).header(content_type_name()) == Some(text_plain()),
{
    lemma_text_plain_is_valid();
    let r = found_response_view(bytes, None);
    assert(r.headers[0].0 == content_type_name());
}

/// A missing key with a redirect path that can be sent as a header value
/// gives status 302 with the path in the `Location` header.
pub proof fn lemma_not_found_redirects(guess: Option<Seq<char>>, path: Seq<char>)
    requires
        header_value_valid(path),
    ensures
        object_response_view(FetchOutcomeView::NotFound, guess, Some(path)).status == FOUND,
        object_response_view(FetchOutcomeView::NotFound, guess, Some(path)).header(
            location_name(),
        ) == Some(path),
        object_response_view(FetchOutcomeView::NotFound, guess, Some(path)).header(
            content_type_name(),
        ) == Some(text_plain()),
        object_response_view(FetchOutcomeView::NotFound, guess, Some(path)).body == encode_utf8(
            "Found"@,
        ),
{
    reveal_strlit("Content-Type");
    reveal_strlit("Location");
    assert(content_type_name().len() != location_name().len());
    let r = object_response_view(FetchOutcomeView::NotFound, guess, Some(path));
    assert(r.headers[0].0 == content_type_name());
    assert(r.headers[1].0 == location_name());
}

/// A missing key with a redirect path that holds a character which may not
/// occur in a header value gives the response of the bare status 500.
pub proof fn lemma_unsendable_redirect_is_500(
    guess: Option<Seq<char>>,
    path: Seq<char>,
    position: int,
)
    requires
        0 <= position < path.len(),
        !header_char_valid(path[position]),
    ensures
        object_response_view(FetchOutcomeView::NotFound, guess, Some(path))
            == status_response_view(INTERNAL_SERVER_ERROR),
{
    lemma_header_value_valid_by_chars(path);
}

/// A missing key without a redirect path gives the very response that the
/// bare status 404 gives.
pub proof fn lemma_not_found_without_redirect_is_404(guess: Option<Seq<char>>)
    ensures
        object_response_view(FetchOutcomeView::NotFound, guess, None) == status_response_view(
            NOT_FOUND,
        ),
{
}

/// A failed lookup gives the response of the bare status 500, whether or not
/// a redirect path is configured.
pub proof fn lemma_transient_error_is_500(
    detail: Seq<char>,
    guess: Option<Seq<char>>,
    redirect_path: Option<Seq<char>>,
)
    ensures
        object_response_view(FetchOutcomeView::TransientError { detail }, guess, redirect_path)
            == status_response_view(INTERNAL_SERVER_ERROR),
        object_response_view(
            FetchOutcomeView::TransientError { detail },
            guess,
            redirect_path,
        ).status == INTERNAL_SERVER_ERROR,
{
}

/// What a failed lookup says of itself never reaches the client: the
/// response is the same for every detail.
pub proof fn lemma_error_detail_is_not_sent(
    first_detail: Seq<char>,
    second_detail: Seq<char>,
    guess: Option<Seq<char>>,
    redirect_path: Option<Seq<char>>,
)
    ensures
        object_response_view(
            FetchOutcomeView::TransientError { detail: first_detail },
            guess,
            redirect_path,
        ) == object_response_view(
            FetchOutcomeView::TransientError { detail: second_detail },
            guess,
            redirect_path,
        ),
{
}

/// Every outcome gives a well-formed response: header names are unique,
/// header values can be sent, and a content type is set.
pub proof fn lemma_object_response_well_formed(
    outcome: FetchOutcomeView,
    guess: Option<Seq<char>>,
    redirect_path: Option<Seq<char>>,
)
    ensures
        object_response_view(outcome, guess, redirect_path).well_formed(),
        object_response_view(outcome, guess, redirect_path).has_header(content_type_name()),
{
    let r = object_response_view(outcome, guess, redirect_path);
    lemma_status_response_well_formed(NOT_FOUND);
    lemma_status_response_well_formed(INTERNAL_SERVER_ERROR);
    lemma_text_plain_is_valid();
    reveal_strlit("Content-Type");
    reveal_strlit("Location");
    assert(content_type_name().len() != location_name().len());
    assert(r.headers[0].0 == content_type_name());
}

/// Building a response keeps no state between calls: two responses built
/// for equal outcomes, equal keys and equal redirect paths are the same in
/// status, headers and body.
pub proof fn lemma_same_fetch_same_response(
    first_outcome: FetchOutcome,
    second_outcome: FetchOutcome,
    first_key: &str,
    second_key: &str,
    first_redirect_path: Option<String>,
    second_redirect_path: Option<String>,
    first: HttpResponse,
    second: HttpResponse,
)
    requires
        first_outcome@ == second_outcome@,
        first_key@ == second_key@,
        first_redirect_path.deep_view() == second_redirect_path.deep_view(),
        first@ == object_response_view(
            first_outcome@,
            guessed_media_type(first_key@),
            first_redirect_path.deep_view(),
        ),
        second@ == object_response_view(
            second_outcome@,
            guessed_media_type(second_key@),
            second_redirect_path.deep_view(),
        ),
    ensures
        first@ == second@,
        first@.status == second@.status,
        first@.headers == second@.headers,
        first@.body == second@.body,
{
}

/// A listener that has terminated stays as it is, whatever happens.
pub proof fn lemma_terminal_state_is_final(state: ListenerStateView, event: ListenerEventView)
    requires
        state.is_terminal(),
    ensures
        state.after(event) == state,
        state.after(event).outcome() == state.outcome(),
{
}

/// A listener is serving only after it was bound: it comes to serve from
/// starting, on the event that it is bound, and in no other way; and no
/// listener ever goes back to starting.
pub proof fn lemma_serving_follows_binding(state: ListenerStateView, event: ListenerEventView)
    ensures
        !(state.after(event) is Starting),
        state.after(event) is Serving ==> (state is Serving || state is Starting) && event is Bound,
        state is Starting && event is Bound ==> state.after(event) is Serving,
{
}

/// A fatal error ends a listener that has not terminated, and the error is
/// what the listener reports.
pub proof fn lemma_fatal_error_is_reported(state: ListenerStateView, error: Seq<char>)
    requires
        !state.is_terminal(),
    ensures
        state.after(ListenerEventView::Fatal { error }).outcome() == Some(
            Err::<(), Seq<char>>(error),
        ),
{
}

/// An event changes the listener that it reaches and no other: the number
/// of listeners, every configuration, and the state of every other listener
/// stay as they were.
pub proof fn lemma_event_reaches_one_listener(
    listeners: Seq<ListenerView>,
    index: int,
    event: ListenerEventView,
)
    ensures
        delivered(listeners, index, event).len() == listeners.len(),
        forall|i: int|
            0 <= i < listeners.len() ==> (#[trigger] delivered(listeners, index, event)[i]).config
                == listeners[i].config,
        forall|i: int|
            0 <= i < listeners.len() && i != index ==> #[trigger] delivered(
                listeners,
                index,
                event,
            )[i] == listeners[i],
{
}

/// Events that reach different listeners do not depend on the order in which
/// they arrive.
pub proof fn lemma_events_on_different_listeners_commute(
    listeners: Seq<ListenerView>,
    first_index: int,
    first_event: ListenerEventView,
    second_index: int,
    second_event: ListenerEventView,
)
    requires
        first_index != second_index,
    ensures
        delivered(delivered(listeners, first_index, first_event), second_index, second_event)
            == delivered(
            delivered(listeners, second_index, second_event),
            first_index,
            first_event,
        ),
{
    assert(delivered(delivered(listeners, first_index, first_event), second_index, second_event)
        =~= delivered(
        delivered(listeners, second_index, second_event),
        first_index,
        first_event,
    ));
}

/// Listeners run independently: after any run of events there are as many
/// listeners as before, each with the configuration it had, and each in the
/// state that the events addressed to it alone lead to. What happens to one
/// listener, a failure included, has no part in the state of another.
pub proof fn lemma_listeners_run_independently(
    listeners: Seq<ListenerView>,
    events: Seq<(int, ListenerEventView)>,
    index: int,
)
    requires
        0 <= index < listeners.len(),
    ensures
        run(listeners, events).len() == listeners.len(),
        run(listeners, events)[index].config == listeners[index].config,
        run(listeners, events)[index].state == state_after(
            listeners[index].state,
            index,
            events,
        ),
    decreases events.len(),
{
    if events.len() > 0 {
        lemma_listeners_run_independently(listeners, events.drop_last(), index);
    }
}

/// How a listener ended is settled once it has terminated: no later event,
/// for it or for another listener, changes its state or its outcome.
pub proof fn lemma_outcome_is_settled(
    state: ListenerStateView,
    index: int,
    events: Seq<(int, ListenerEventView)>,
)
    requires
        state.is_terminal(),
    ensures
        state_after(state, index, events) == state,
    decreases events.len(),
{
    if events.len() > 0 {
        lemma_outcome_is_settled(state, index, events.drop_last());
    }
}

/// The overall result has one outcome for each listener, and the outcome of
/// a listener that failed is its error.
pub proof fn lemma_overall_result_has_one_outcome_each(listeners: Seq<ListenerView>)
    requires
        all_terminated(listeners),
    ensures
        overall_result(listeners).len() == listeners.len(),
        forall|i: int|
            0 <= i < listeners.len() ==> (#[trigger] listeners[i]).state.outcome() == Some(
                overall_result(listeners)[i],
            ),
{
    assert forall|i: int| 0 <= i < listeners.len() implies (#[trigger] listeners[i]).state.outcome()
        == Some(overall_result(listeners)[i]) by {
        assert(listeners[i].state.is_terminal());
    }
}

/// A runtime that has just been started has a listener for each
/// configuration, and while there are listeners it has no overall result
/// yet.
pub proof fn lemma_started_runtime_has_not_terminated(configs: Seq<ServerConfigView>)
    ensures
        started(configs).len() == configs.len(),
        configs.len() > 0 ==> !all_terminated(started(configs)),
{
    if configs.len() > 0 {
        assert(!started(configs)[0].state.is_terminal());
    }
}

} // verus!
