//! Laws of requests: what is accepted, what is refused, and what is answered.

use crate::invoke;
use crate::invoke::{InvokeStepView, ToolCallView};
use crate::json::JsonView;
use crate::laws::texts;
use crate::protocol;
use crate::protocol::{
    ListenOptionsView, QefroConfigView, QefroRequestView, SDK_NAME, SDK_VERSION,
};
use crate::qefro::QefroView;
use crate::signature;
use crate::source;
use crate::source::Draw;
use crate::text;
use crate::webhook;
use crate::webhook::RawStepView;
use vstd::prelude::*;
use vstd::utf8::*;

verus! {

/// A step that gives an error with a code and a message.
pub open spec fn is_error(step: InvokeStepView, code: Seq<char>, message: Seq<char>) -> bool {
    &&& step is Respond
    &&& step->Respond_0 is Error
    &&& step->Respond_0->Error_code == code
    &&& step->Respond_0->Error_message == message
}

/// A request to invoke a tool is a call of that tool with what the request says:
/// its identity, channel and authentication, its parameters or an empty object, its
/// conversation or a fresh one, and no answer to a challenge.
pub proof fn law_invoke_request(app: QefroView, request: QefroRequestView, draw: Draw)
    requires
        request.protocol_version == app.config.protocol_version,
        request.request_type == "tool.invoke"@,
    ensures
        exists|asked: ToolCallView|
            {
                &&& webhook::handle_spec(app, request, draw) == #[trigger] invoke::invoke_spec(
                    app,
                    asked,
                    draw,
                )
                &&& asked.tool == request.tool
                &&& asked.identity == request.identity
                &&& asked.channel == request.channel
                &&& asked.authentication == request.authentication
                &&& asked.auth_response is None
                &&& request.parameters is Some ==> asked.parameters == request.parameters->0
                &&& request.parameters is None ==> asked.parameters == JsonView::Object(
                    Map::empty(),
                )
                &&& request.conversation_id is Some ==> asked.conversation_id
                    == request.conversation_id->0
                &&& request.conversation_id is None ==> asked.conversation_id == draw.conversation
            },
{
    webhook::lemma_request_types();
    assert(webhook::handle_spec(app, request, draw) == invoke::invoke_spec(
        app,
        request.call(draw),
        draw,
    ));
}

/// A request to resume makes the call that waits under the token once more: the same
/// tool, parameters, conversation, identity and channel, with the answer and the
/// authentication of the request; and the call does not wait any longer. Without a
/// token, an answer or a call that waits, it is refused.
pub proof fn law_resume_request(app: QefroView, request: QefroRequestView, draw: Draw)
    requires
        request.protocol_version == app.config.protocol_version,
        request.request_type == "tool.resume"@,
    ensures
        ({
            let next = webhook::handle_spec(app, request, draw);
            let token = request.resume_token->0;
            &&& request.resume_token is None ==> next.0 == app && is_error(
                next.1,
                "invalid_request"@,
                "resume_token is required"@,
            )
            &&& request.resume_token is Some && request.challenge_response is None ==> next.0
                == app && is_error(
                next.1,
                "invalid_request"@,
                "challenge_response is required"@,
            )
            &&& request.resume_token is Some && request.challenge_response is Some
                && !app.pending.contains_key(token) ==> next.0 == app && is_error(
                next.1,
                "not_found"@,
                "resume token not found or expired"@,
            )
            &&& request.resume_token is Some && request.challenge_response is Some
                && app.pending.contains_key(token) ==> {
                let waiting = app.pending[token];
                next == invoke::invoke_spec(
                    QefroView { pending: app.pending.remove(token), ..app },
                    ToolCallView {
                        tool: Some(waiting.tool),
                        parameters: waiting.parameters,
                        conversation_id: waiting.conversation_id,
                        identity: waiting.identity,
                        channel: waiting.channel,
                        authentication: request.authentication,
                        auth_response: request.challenge_response,
                    },
                    draw,
                )
            }
        }),
{
    webhook::lemma_request_types();
}

/// A ping is answered with the protocol version of the webhook and the version of
/// the package. A listing is answered with every tool, in the order in which they
/// were registered. Neither changes the webhook.
pub proof fn law_ping_and_lists(app: QefroView, request: QefroRequestView, draw: Draw, i: int)
    requires
        request.protocol_version == app.config.protocol_version,
    ensures
        ({
            let (after, step) = webhook::handle_spec(app, request, draw);
            &&& request.request_type == "ping"@ ==> {
                &&& after == app
                &&& step is Respond
                &&& step->Respond_0 is Pong
                &&& step->Respond_0->Pong_protocol_version == app.config.protocol_version
                &&& step->Respond_0->Pong_sdk_version == "1.7.0"@
            }
            &&& request.request_type == "tools.list"@ ==> {
                let tools = step->Respond_0->ToolsList_tools;
                &&& after == app
                &&& step is Respond
                &&& step->Respond_0 is ToolsList
                &&& tools.len() == app.tools.len()
                &&& 0 <= i < app.tools.len() ==> tools[i].name == app.tools[i].name
                &&& step->Respond_0->ToolsList_protocol_version == app.config.protocol_version
                &&& step->Respond_0->ToolsList_sdk_version == "1.7.0"@
            }
            &&& request.request_type == "capabilities.list"@ ==> {
                let tools = step->Respond_0->CapabilitiesList_tools;
                let marketing = step->Respond_0->CapabilitiesList_marketing;
                &&& after == app
                &&& step is Respond
                &&& step->Respond_0 is CapabilitiesList
                &&& tools.len() == app.tools.len()
                &&& 0 <= i < app.tools.len() ==> tools[i].name == app.tools[i].name
                &&& step->Respond_0->CapabilitiesList_flows.len() == 0
                &&& app.marketing is None <==> marketing is None
                &&& app.marketing is Some ==> {
                    let registered = app.marketing->0;
                    &&& marketing->0.version == registered.version
                    &&& marketing->0.metadata.audiences == registered.audiences
                    &&& marketing->0.metadata.variables == registered.variables
                    &&& marketing->0.metadata.actions == registered.actions
                    &&& marketing->0.metadata.landing_pages == registered.landing_pages
                    &&& marketing->0.metadata.channels == registered.channels
                }
                &&& step->Respond_0->CapabilitiesList_protocol_version
                    == app.config.protocol_version
                &&& step->Respond_0->CapabilitiesList_sdk_version == "1.7.0"@
            }
        }),
{
    webhook::lemma_request_types();
}

/// A request of another protocol version, and one of a kind that is not known, is
/// refused, and changes nothing.
pub proof fn law_other_requests_refused(app: QefroView, request: QefroRequestView, draw: Draw)
    ensures
        ({
            let (after, step) = webhook::handle_spec(app, request, draw);
            &&& request.protocol_version != app.config.protocol_version ==> after == app
                && is_error(step, "protocol_mismatch"@, "Unsupported protocol version"@)
            &&& request.protocol_version == app.config.protocol_version && request.request_type
                != "ping"@ && request.request_type != "tools.list"@ && request.request_type
                != "capabilities.list"@ && request.request_type != "tool.invoke"@
                && request.request_type != "tool.resume"@ ==> after == app && is_error(
                step,
                "invalid_request"@,
                "Unsupported request type"@,
            )
        }),
{
}

/// The text of a header: that of the first header of that name, whatever the case of
/// its letters, where all its bytes are visible.
pub open spec fn is_header(
    headers: Seq<(Seq<char>, Seq<u8>)>,
    name: Seq<char>,
    i: int,
) -> bool {
    &&& 0 <= i < headers.len()
    &&& text::lower_spec(headers[i].0) == name
    &&& forall|j: int| 0 <= j < i ==> text::lower_spec((#[trigger] headers[j]).0) != name
}

proof fn lemma_header_value(headers: Seq<(Seq<char>, Seq<u8>)>, name: Seq<char>)
    ensures
        protocol::header_value(headers, name) is None ==> forall|i: int|
            0 <= i < headers.len() ==> text::lower_spec((#[trigger] headers[i]).0) != name,
        forall|i: int| #[trigger]
            is_header(headers, name, i) ==> protocol::header_value(headers, name) == Some(
                headers[i].1,
            ),
        protocol::header_value(headers, name) is Some ==> exists|i: int| #[trigger]
            is_header(headers, name, i),
    decreases headers.len(),
{
    if headers.len() > 0 {
        let shorter = headers.drop_last();
        let n = headers.len() - 1;
        lemma_header_value(shorter, name);
        assert(headers.last() == headers[n]);
        assert forall|i: int| 0 <= i < n implies #[trigger] headers[i] == shorter[i] by {}
        if protocol::header_value(shorter, name) is Some {
            let i = choose|i: int| #[trigger] is_header(shorter, name, i);
            assert forall|j: int| 0 <= j < i implies text::lower_spec((#[trigger] headers[j]).0)
                != name by {
                assert(shorter[j] == headers[j]);
            }
            assert(is_header(headers, name, i));
        } else if text::lower_spec(headers[n].0) == name {
            assert forall|j: int| 0 <= j < n implies text::lower_spec((#[trigger] headers[j]).0)
                != name by {
                assert(shorter[j] == headers[j]);
            }
            assert(is_header(headers, name, n));
        }
        assert forall|i: int| #[trigger] is_header(headers, name, i) implies protocol::header_value(
            headers,
            name,
        ) == Some(headers[i].1) by {
            if i < n {
                assert forall|j: int|
                    0 <= j < i implies text::lower_spec((#[trigger] shorter[j]).0) != name by {
                    assert(shorter[j] == headers[j]);
                }
                assert(is_header(shorter, name, i));
            } else if protocol::header_value(shorter, name) is Some {
                let k = choose|k: int| #[trigger] is_header(shorter, name, k);
                assert(headers[k] == shorter[k]);
            }
        }
        if protocol::header_value(headers, name) is None {
            assert forall|i: int| 0 <= i < headers.len() implies text::lower_spec(
                (#[trigger] headers[i]).0,
            ) != name by {
                if i < n {
                    assert(shorter[i] == headers[i]);
                }
            }
        }
    }
}

/// A header is read by its name in any case; of several the first counts; and one
/// with a byte that is not visible ASCII or a tab is not read.
pub proof fn law_header_read(headers: Seq<(Seq<char>, Seq<u8>)>, name: Seq<char>, i: int)
    ensures
        (forall|j: int|
            0 <= j < headers.len() ==> text::lower_spec((#[trigger] headers[j]).0) != name)
            ==> protocol::header_text(headers, name) is None,
        is_header(headers, name, i) ==> {
            let raw = headers[i].1;
            let read = protocol::header_text(headers, name);
            &&& read is Some <==> forall|k: int|
                0 <= k < raw.len() ==> (32 <= #[trigger] raw[k] <= 126 || raw[k] == 9)
            &&& read is Some ==> read->0.len() == raw.len() && forall|k: int|
                0 <= k < raw.len() ==> (#[trigger] read->0[k]) as u32 == raw[k] as u32
        },
{
    lemma_header_value(headers, name);
    if protocol::header_value(headers, name) is Some {
        let k = choose|k: int| #[trigger] is_header(headers, name, k);
        assert(text::lower_spec(headers[k].0) == name);
    }
    if is_header(headers, name, i) {
        let raw = headers[i].1;
        if forall|k: int| 0 <= k < raw.len() ==> (32 <= #[trigger] raw[k] <= 126 || raw[k] == 9) {
            assert forall|k: int| 0 <= k < raw.len() implies protocol::is_visible_ascii(
                #[trigger] raw[k],
            ) by {}
        }
        if protocol::header_text(headers, name) is Some {
            assert forall|k: int| 0 <= k < raw.len() implies (32 <= #[trigger] raw[k] <= 126
                || raw[k] == 9) by {
                assert(protocol::is_visible_ascii(raw[k]));
            }
        }
    }
}

/// A request is signed where it names a signature and a time; the time is within the
/// allowed skew of the present, before or after; and the signature is the code of the
/// time and the body under the secret of the webhook.
pub proof fn law_signed(
    app: QefroView,
    body: Seq<char>,
    headers: Seq<(Seq<char>, Seq<u8>)>,
    now_secs: i64,
)
    ensures
        webhook::is_signed_request(app, body, headers, now_secs) <==> {
            let sig = protocol::header_text(headers, "x-qefro-signature"@);
            let time = protocol::header_text(headers, "x-qefro-timestamp"@);
            &&& sig is Some
            &&& time is Some
            &&& text::parse_i64_spec(time->0) is Some
            &&& {
                let t = text::parse_i64_spec(time->0)->0;
                &&& now_secs - t <= app.config.max_timestamp_skew_secs
                &&& t - now_secs <= app.config.max_timestamp_skew_secs
                &&& sig->0 == "v1="@ + signature::hex_spec(
                    signature::hmac_sha256_spec(
                        encode_utf8(app.config.signing_secret),
                        encode_utf8("v1:"@ + text::decimal_int_spec(t as int) + ":"@ + body),
                    ),
                )
            }
        },
{
}

/// The same of a signature and a time that are given by themselves.
pub proof fn law_signature_checked(
    config: QefroConfigView,
    now_secs: i64,
    sig: Seq<char>,
    t: i64,
    body: Seq<char>,
)
    ensures
        signature::is_signed(config, now_secs, sig, t, body) <==> {
            &&& now_secs - t <= config.max_timestamp_skew_secs
            &&& t - now_secs <= config.max_timestamp_skew_secs
            &&& sig == "v1="@ + signature::hex_spec(
                signature::hmac_sha256_spec(
                    encode_utf8(config.signing_secret),
                    encode_utf8("v1:"@ + text::decimal_int_spec(t as int) + ":"@ + body),
                ),
            )
        },
        signature::signature_spec(config.signing_secret, t, body) == "v1="@ + signature::hex_spec(
            signature::hmac_sha256_spec(
                encode_utf8(config.signing_secret),
                encode_utf8("v1:"@ + text::decimal_int_spec(t as int) + ":"@ + body),
            ),
        ),
{
}

/// What is signed tells the time and the body: no two requests are signed alike.
pub proof fn law_signed_payload_injective(a: i64, x: Seq<char>, b: i64, y: Seq<char>)
    requires
        signature::signed_payload(a, x) == signature::signed_payload(b, y),
    ensures
        a == b,
        x == y,
{
    let p = signature::signed_payload(a, x);
    let c = text::decimal_int_spec(a as int);
    let d = text::decimal_int_spec(b as int);
    reveal_strlit("v1:");
    reveal_strlit(":");
    texts::law_decimal_roundtrip(a);
    texts::law_decimal_roundtrip(b);
    lemma_no_colon(a);
    lemma_no_colon(b);
    let m = c.len() as int;
    let n = d.len() as int;
    assert(p[3 + m] == ':');
    assert(p[3 + n] == ':');
    if m < n {
        assert(p[3 + m] == d[m]);
    }
    if n < m {
        assert(p[3 + n] == c[n]);
    }
    assert(p.subrange(3, 3 + m) =~= c);
    assert(p.subrange(3, 3 + n) =~= d);
    assert(p.skip(4 + m) =~= x);
    assert(p.skip(4 + n) =~= y);
}

proof fn lemma_no_colon(n: i64)
    ensures
        text::decimal_int_spec(n as int).len() > 0,
        forall|i: int|
            0 <= i < text::decimal_int_spec(n as int).len() ==> #[trigger] text::decimal_int_spec(
                n as int,
            )[i] != ':',
{
    let m: nat = if n < 0 {
        (-(n as int)) as nat
    } else {
        n as nat
    };
    texts::law_decimal(m);
    texts::law_decimal_roundtrip(n);
    let s = text::decimal_int_spec(n as int);
    if n < 0 {
        assert(s[0] == '-');
    } else {
        assert(s[0] == text::decimal_spec(m)[0]);
    }
    assert forall|i: int| 0 <= i < s.len() implies #[trigger] s[i] != ':' by {
        if i > 0 {
            assert('0' <= s[i] <= '9');
        }
    }
}

/// A raw request is refused with status 400 where its headers name another protocol
/// version, else with 401 where it is not signed, else with 400 where its body is no
/// request, each time with its error and without a change. Otherwise it is handled,
/// with status 200.
pub proof fn law_raw_request(
    app: QefroView,
    headers: Seq<(Seq<char>, Seq<u8>)>,
    signed: bool,
    parsed: Result<QefroRequestView, Seq<char>>,
    draw: Draw,
)
    ensures
        ({
            let (after, raw): (QefroView, RawStepView) = webhook::receive_spec(
                app,
                headers,
                signed,
                parsed,
                draw,
            );
            let short = protocol::header_text(headers, "x-qefro-protocol"@);
            let long = protocol::header_text(headers, "x-qefro-protocol-version"@);
            let named = if short is Some {
                short
            } else {
                long
            };
            let other = named is Some && named->0 != app.config.protocol_version;
            &&& other ==> after == app && raw.status == 400 && is_error(
                raw.step,
                "protocol_mismatch"@,
                "Unsupported protocol version "@ + named->0,
            )
            &&& !other && !signed ==> after == app && raw.status == 401 && is_error(
                raw.step,
                "invalid_signature"@,
                "Invalid Qefro signature"@,
            )
            &&& !other && signed && parsed is Err ==> after == app && raw.status == 400
                && is_error(raw.step, "invalid_request"@, parsed->Err_0)
            &&& !other && signed && parsed is Ok ==> raw.status == 200 && (after, raw.step)
                == webhook::handle_spec(app, parsed->Ok_0, draw)
        }),
{
}

/// Every response names the protocol version of the webhook, or `1` where that
/// cannot be sent, and the name and the version of the package.
pub proof fn law_response_headers(version: Seq<char>)
    ensures
        ({
            let sent = protocol::response_headers(version);
            let can = forall|i: int|
                0 <= i < encode_utf8(version).len() ==> {
                    let b = #[trigger] encode_utf8(version)[i];
                    b == 9 || (b >= 32 && b != 127)
                };
            &&& sent.len() == 4
            &&& sent[0].0 == "X-Qefro-Protocol"@
            &&& sent[1].0 == "X-Qefro-Protocol-Version"@
            &&& can ==> sent[0].1 == version && sent[1].1 == version
            &&& !can ==> sent[0].1 == "1"@ && sent[1].1 == "1"@
            &&& sent[2] == ("X-Qefro-SDK"@, "qefro-backend-sdk"@)
            &&& sent[3] == ("X-Qefro-Version"@, "1.7.0"@)
        }),
        SDK_NAME@ == "qefro-backend-sdk"@,
        SDK_VERSION@ == "1.7.0"@,
{
    let can = forall|i: int|
        0 <= i < encode_utf8(version).len() ==> {
            let b = #[trigger] encode_utf8(version)[i];
            b == 9 || (b >= 32 && b != 127)
        };
    if protocol::is_header_text(version) {
        assert forall|i: int| 0 <= i < encode_utf8(version).len() implies {
            let b = #[trigger] encode_utf8(version)[i];
            b == 9 || (b >= 32 && b != 127)
        } by {
            assert(protocol::is_header_byte(encode_utf8(version)[i]));
        }
    }
    if can {
        assert forall|i: int| 0 <= i < encode_utf8(version).len() implies protocol::is_header_byte(
            #[trigger] encode_utf8(version)[i],
        ) by {}
    }
}

/// The webhook is served at the host and port of the options, on all interfaces
/// where they name no host, and at their path, or the one that is set up; a path
/// that does not begin with a slash gets one. The URL is made of the three.
pub proof fn law_listen_plan(config: QefroConfigView, options: ListenOptionsView)
    ensures
        ({
            let plan = protocol::listen_plan(config, options);
            let given = if options.path is Some {
                options.path->0
            } else {
                config.endpoint_path
            };
            let port = text::decimal_spec(options.port as nat);
            &&& plan.path.len() > 0
            &&& plan.path[0] == '/'
            &&& given.len() > 0 && given[0] == '/' ==> plan.path == given
            &&& given.len() == 0 || given[0] != '/' ==> plan.path.skip(1) == given
            &&& options.host is Some ==> plan.address == options.host->0 + ":"@ + port
            &&& options.host is None ==> plan.address == "0.0.0.0"@ + ":"@ + port
            &&& plan.url == "http://"@ + plan.address + plan.path
        }),
{
    reveal_strlit("/");
    let given = if options.path is Some {
        options.path->0
    } else {
        config.endpoint_path
    };
    assert(("/"@ + given).skip(1) =~= given);
}

/// The text of a UUID has 36 characters: hyphens in four places, and lower case
/// hexadecimal digits elsewhere.
pub proof fn law_uuid_text_form(id: u128, i: int)
    requires
        0 <= i < 36,
    ensures
        source::uuid_spec(id).len() == 36,
        i == 8 || i == 13 || i == 18 || i == 23 ==> source::uuid_spec(id)[i] == '-',
        i != 8 && i != 13 && i != 18 && i != 23 ==> {
            let c = source::uuid_spec(id)[i];
            '0' <= c <= '9' || 'a' <= c <= 'f'
        },
{
    lemma_hex_digits(id as nat, 32);
    let d = source::hex_digits(id as nat, 32);
    let k: int = if i < 8 {
        i
    } else if i < 13 {
        i - 1
    } else if i < 18 {
        i - 2
    } else if i < 23 {
        i - 3
    } else {
        i - 4
    };
    if i != 8 && i != 13 && i != 18 && i != 23 {
        assert(source::uuid_spec(id)[i] == d[k]);
    }
}

proof fn lemma_hex_digits(id: nat, n: nat)
    ensures
        source::hex_digits(id, n).len() == n,
        forall|i: int|
            0 <= i < n ==> {
                let c = #[trigger] source::hex_digits(id, n)[i];
                '0' <= c <= '9' || 'a' <= c <= 'f'
            },
    decreases n,
{
    if n > 0 {
        lemma_hex_digits(id / 16, (n - 1) as nat);
        let s = source::hex_digits(id, n);
        let t = source::hex_digits(id / 16, (n - 1) as nat);
        assert forall|i: int| 0 <= i < n implies {
            let c = #[trigger] s[i];
            '0' <= c <= '9' || 'a' <= c <= 'f'
        } by {
            if i < n - 1 {
                assert(s[i] == t[i]);
            } else {
                assert(s[i] == signature::hex_char(id % 16));
            }
        }
    }
}

/// A draw has an instant from the epoch on, and two random ids of version 4; its
/// token is the text of the second one.
pub proof fn law_draw(draw: Draw)
    ensures
        draw.is_fresh() <==> {
            &&& 0 <= draw.now_ms <= 8210266876799999
            &&& (draw.conversation >> 76) & 15 == 4
            &&& (draw.conversation >> 62) & 3 == 2
            &&& (draw.token >> 76) & 15 == 4
            &&& (draw.token >> 62) & 3 == 2
        },
        draw.token_text() == source::uuid_spec(draw.token),
{
}

/// The text of a code has two lower case hexadecimal digits for each byte, the
/// higher one first.
pub proof fn law_hex(bytes: Seq<u8>, i: int)
    requires
        0 <= i < bytes.len(),
    ensures
        signature::hex_spec(bytes).len() == 2 * bytes.len(),
        hex_value(signature::hex_spec(bytes)[2 * i]) * 16 + hex_value(
            signature::hex_spec(bytes)[2 * i + 1],
        ) == bytes[i],
{
    assert((2 * i) / 2 == i && (2 * i + 1) / 2 == i);
    assert(signature::hex_spec(bytes)[2 * i] == signature::hex_char((bytes[i] / 16) as nat));
    assert(signature::hex_spec(bytes)[2 * i + 1] == signature::hex_char((bytes[i] % 16) as nat));
}

/// The value of a lower case hexadecimal digit; less than nothing for another
/// character.
pub open spec fn hex_value(c: char) -> int {
    if '0' <= c <= '9' {
        c as u32 - 48
    } else if 'a' <= c <= 'f' {
        c as u32 - 87
    } else {
        -1000
    }
}

} // verus!
