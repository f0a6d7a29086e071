//! What holds of the two services together, stated over the same models that
//! the functions' own contracts use.

use vstd::prelude::*;
use crate::clock::{rfc3339_text, Instant};
use crate::gateway::{
    failure_of, forwarding_of, relayed, settles_body, settles_reply, Body, Failure, GatewayError,
    Reading, Reply,
};
use crate::health::health_report;
use crate::message::{TimeResponse, TimeResponseView};
use crate::provider::time_reply;
use crate::status::HttpStatus;
use crate::zone::{is_supported, requested_name, zone_of, Zone};

verus! {

/// The resolution table: each of the seven supported names stands for the
/// zone listed beside it, and each is recognised as supported.
pub proof fn lemma_zone_table()
    ensures
        zone_of("UTC"@) == Zone::Utc,
        zone_of("EST"@) == Zone::UsEastern,
        zone_of("US/Eastern"@) == Zone::UsEastern,
        zone_of("PST"@) == Zone::UsPacific,
        zone_of("US/Pacific"@) == Zone::UsPacific,
        zone_of("CET"@) == Zone::EuropeBerlin,
        zone_of("Europe/Berlin"@) == Zone::EuropeBerlin,
        is_supported("UTC"@),
        is_supported("EST"@),
        is_supported("US/Eastern"@),
        is_supported("PST"@),
        is_supported("US/Pacific"@),
        is_supported("CET"@),
        is_supported("Europe/Berlin"@),
{
    reveal_strlit("UTC");
    reveal_strlit("EST");
    reveal_strlit("US/Eastern");
    reveal_strlit("PST");
    reveal_strlit("US/Pacific");
    reveal_strlit("CET");
    reveal_strlit("Europe/Berlin");
    // Names of one length differ in a letter; the others differ in length.
    assert("UTC"@.len() == 3 && "EST"@.len() == 3 && "PST"@.len() == 3 && "CET"@.len() == 3);
    assert("US/Eastern"@.len() == 10 && "US/Pacific"@.len() == 10);
    assert("Europe/Berlin"@.len() == 13);
    assert("UTC"@[0] == 'U' && "EST"@[0] == 'E' && "PST"@[0] == 'P' && "CET"@[0] == 'C');
    assert("US/Eastern"@[3] == 'E' && "US/Pacific"@[3] == 'P');
}

/// The provider hands a zone name back exactly as it was asked for, whether
/// it knows the name or not, and writes the time in the zone that the table
/// gives for that name.
pub proof fn lemma_provider_echoes_zone_name(name: Seq<char>, request_id: Seq<char>, at: Instant)
    ensures
        time_reply(Some(name), request_id, at).timezone == name,
        time_reply(Some(name), request_id, at).timestamp == rfc3339_text(
            at.secs as int,
            at.nanos as int,
            zone_of(name),
        ),
{
}

/// A name outside the table is served as UTC: the provider's answer carries
/// the same time as its answer to a request for `UTC`, and to one that names
/// no zone, at the same moment.
pub proof fn lemma_unknown_zone_defaults_to_utc(
    name: Seq<char>,
    request_id: Seq<char>,
    at: Instant,
)
    requires
        !is_supported(name),
    ensures
        zone_of(name) == Zone::Utc,
        time_reply(Some(name), request_id, at).timestamp == time_reply(
            Some("UTC"@),
            request_id,
            at,
        ).timestamp,
        time_reply(Some(name), request_id, at).timestamp == time_reply(
            None,
            request_id,
            at,
        ).timestamp,
{
    lemma_zone_table();
}

/// The provider never replaces an identifier it was given: its answer
/// carries the request's identifier unchanged, and its own mark as source.
pub proof fn lemma_provider_keeps_identifier(
    timezone: Option<Seq<char>>,
    request_id: Seq<char>,
    at: Instant,
)
    ensures
        time_reply(timezone, request_id, at).request_id == request_id,
        time_reply(timezone, request_id, at).source == "api2-service"@,
{
}

/// One request through both hops. The gateway forwards under the identifier
/// it minted; whatever moment the provider answers at, and whatever
/// identifier the provider's answer carries, the relayed answer has the
/// minted identifier, the mark of both hops, the requested zone name (`UTC`
/// when none was requested) and the provider's time for that zone.
pub proof fn lemma_round_trip(
    timezone: Option<Seq<char>>,
    provider_url: Option<Seq<char>>,
    minted: Seq<char>,
    at: Instant,
)
    ensures
        ({
            let call = forwarding_of(timezone, provider_url, minted);
            let upstream = time_reply(Some(call.timezone), call.request_id, at);
            let answer = relayed(minted, upstream);
            &&& answer.source == "api1->api2"@
            &&& answer.request_id == minted
            &&& answer.timezone == requested_name(timezone)
            &&& answer.timestamp == rfc3339_text(
                at.secs as int,
                at.nanos as int,
                zone_of(requested_name(timezone)),
            )
            &&& timezone is None ==> answer.timezone == "UTC"@ && answer.timestamp == rfc3339_text(
                at.secs as int,
                at.nanos as int,
                Zone::Utc,
            )
        }),
{
    lemma_zone_table();
}

/// The gateway's identifier wins: the relayed answer carries the minted
/// identifier and the mark of both hops whatever the provider wrote into its
/// own answer, and keeps the provider's time and zone name.
pub proof fn lemma_relay_overwrites_identifier(minted: Seq<char>, upstream: TimeResponseView)
    ensures
        relayed(minted, upstream).request_id == minted,
        relayed(minted, upstream).source == "api1->api2"@,
        relayed(minted, upstream).timestamp == upstream.timestamp,
        relayed(minted, upstream).timezone == upstream.timezone,
{
}

/// When the provider cannot be reached the request fails with 503 and the
/// fixed description, under the identifier it was given on arrival.
pub proof fn lemma_unreachable_gives_503(
    request_id: Seq<char>,
    at: Instant,
    next: Result<Reading, Failure>,
)
    requires
        settles_reply(request_id, Reply::Unreachable, at, next),
    ensures
        next matches Err(failure) && failure.status.code == 503 && failure.body.error@
            == "Failed to connect to API2"@ && failure.body.request_id@ == request_id,
{
}

/// When the provider answers with a status outside 200..=299 the request
/// fails with 502, under the identifier it was given on arrival, and the
/// description is the fixed lead followed by the provider's status in words.
pub proof fn lemma_failing_status_gives_502(
    request_id: Seq<char>,
    status: HttpStatus,
    at: Instant,
    next: Result<Reading, Failure>,
)
    requires
        !status.succeeded(),
        settles_reply(request_id, Reply::Status(status), at, next),
    ensures
        next matches Err(failure) && failure.status.code == 502 && failure.body.error@
            == GatewayError::UpstreamError(status).wording() && failure.body.request_id@
            == request_id,
{
}

/// A success status fails nothing: the request goes on to read the body,
/// under the same identifier.
pub proof fn lemma_success_status_reads_body(
    request_id: Seq<char>,
    status: HttpStatus,
    at: Instant,
    next: Result<Reading, Failure>,
)
    requires
        status.succeeded(),
        settles_reply(request_id, Reply::Status(status), at, next),
    ensures
        next matches Ok(reading) && reading.request_id@ == request_id,
{
}

/// A body that is no time reply fails the request with 500 and the fixed
/// description, under the identifier it was given on arrival.
pub proof fn lemma_malformed_body_gives_500(
    request_id: Seq<char>,
    at: Instant,
    done: Result<TimeResponse, Failure>,
)
    requires
        settles_body(request_id, Body::Malformed, at, done),
    ensures
        done matches Err(failure) && failure.status.code == 500 && failure.body.error@
            == "Failed to parse response from API2"@ && failure.body.request_id@ == request_id,
{
}

/// Every failure carries the identifier of its request and the time at which
/// it was noticed, whichever error it is.
pub proof fn lemma_failure_carries_identifier(kind: GatewayError, request_id: Seq<char>, at: Instant)
    ensures
        failure_of(kind, request_id, at).body.request_id == request_id,
        failure_of(kind, request_id, at).body.timestamp == rfc3339_text(
            at.secs as int,
            at.nanos as int,
            Zone::Utc,
        ),
        failure_of(kind, request_id, at).status.code == 503 || failure_of(
            kind,
            request_id,
            at,
        ).status.code == 502 || failure_of(kind, request_id, at).status.code == 500,
{
}

/// No failure goes out with an empty description.
pub proof fn lemma_failure_is_described(kind: GatewayError, request_id: Seq<char>, at: Instant)
    ensures
        failure_of(kind, request_id, at).body.error.len() > 0,
{
    reveal_strlit("Failed to connect to API2");
    reveal_strlit("API2 returned status: ");
    reveal_strlit("Failed to parse response from API2");
}

/// A health report says `healthy` at every moment, so asking again changes
/// nothing but the time stamp.
pub proof fn lemma_health_is_steady(service: Seq<char>, first: Instant, second: Instant)
    ensures
        health_report(service, first).status == "healthy"@,
        health_report(service, second).status == health_report(service, first).status,
        health_report(service, second).service == health_report(service, first).service,
{
}

} // verus!
