//! Wire encoding of outbound messages: line-delimited JSON envelopes.
//!
//! Every encoder's output is pinned, character for character, by a spec
//! function over the message's fields, so tests and contracts can speak of
//! the exact wire text — in particular, that optional fields such as the
//! registration auth token are omitted entirely when absent, not sent as
//! `null`.

use vstd::prelude::*;
use vstd::string::StrSliceExecFns;
use vstd::string::StringExecFns;

use crate::messages::ActionCommand;
use crate::messages::PreCheckResponse;
use crate::messages::RegistrationParams;
use crate::methods;

verus! {

broadcast use vstd::seq_lib::group_seq_lib_default;

/// Relies on `String::push`: appends exactly one character.
#[verifier::external_body]
pub(crate) fn push_char(s: &mut String, c: char)
    ensures
        final(s)@ == old(s)@.push(c),
{
    s.push(c);
}

/// Character-for-character string comparison, stated over the views.
pub fn str_eq(a: &str, b: &str) -> (r: bool)
    ensures
        r == (a@ == b@),
{
    let sa = a.to_owned();
    let sb = b.to_owned();
    sa == sb
}

/// The hexadecimal digit for `n`, lower case.
pub open spec fn hex_digit(n: int) -> char {
    if n == 0 {
        '0'
    } else if n == 1 {
        '1'
    } else if n == 2 {
        '2'
    } else if n == 3 {
        '3'
    } else if n == 4 {
        '4'
    } else if n == 5 {
        '5'
    } else if n == 6 {
        '6'
    } else if n == 7 {
        '7'
    } else if n == 8 {
        '8'
    } else if n == 9 {
        '9'
    } else if n == 10 {
        'a'
    } else if n == 11 {
        'b'
    } else if n == 12 {
        'c'
    } else if n == 13 {
        'd'
    } else if n == 14 {
        'e'
    } else {
        'f'
    }
}

fn hex_digit_char(n: u8) -> (c: char)
    requires
        n < 16,
    ensures
        c == hex_digit(n as int),
{
    // '0' is 48 and 'a' is 97, so 'a' - 10 is 87.
    let b: u8 = if n < 10 {
        48 + n
    } else {
        87 + n
    };
    b as char
}

/// The JSON escape of one character inside a string literal: quote,
/// backslash and control characters are escaped, everything else stands as
/// itself.
pub open spec fn escape_char(c: char) -> Seq<char> {
    if c == '"' {
        seq!['\\', '"']
    } else if c == '\\' {
        seq!['\\', '\\']
    } else if c == '\u{8}' {
        seq!['\\', 'b']
    } else if c == '\t' {
        seq!['\\', 't']
    } else if c == '\n' {
        seq!['\\', 'n']
    } else if c == '\u{c}' {
        seq!['\\', 'f']
    } else if c == '\r' {
        seq!['\\', 'r']
    } else if (c as int) < 0x20 {
        seq!['\\', 'u', '0', '0', hex_digit(c as int / 16), hex_digit(c as int % 16)]
    } else {
        seq![c]
    }
}

/// The JSON escape of a whole string body.
pub open spec fn escape_str(s: Seq<char>) -> Seq<char>
    decreases s.len(),
{
    if s.len() == 0 {
        Seq::empty()
    } else {
        escape_str(s.drop_last()) + escape_char(s.last())
    }
}

/// A JSON string literal: the escaped body between quotes.
pub open spec fn json_string(s: Seq<char>) -> Seq<char> {
    seq!['"'] + escape_str(s) + seq!['"']
}

/// The decimal digits of `n` (for nonnegative `n`), most significant first.
pub open spec fn dec_str(n: int) -> Seq<char>
    decreases n,
{
    if n < 10 {
        seq![hex_digit(n)]
    } else {
        dec_str(n / 10) + seq![hex_digit(n % 10)]
    }
}

/// A JSON `true` or `false` literal.
pub open spec fn json_bool(b: bool) -> Seq<char> {
    if b {
        "true"@
    } else {
        "false"@
    }
}

/// The comma-separated JSON string literals of `elems`.
pub open spec fn json_string_items(elems: Seq<Seq<char>>) -> Seq<char>
    decreases elems.len(),
{
    if elems.len() == 0 {
        Seq::empty()
    } else if elems.len() == 1 {
        json_string(elems[0])
    } else {
        json_string_items(elems.drop_last()) + seq![','] + json_string(elems.last())
    }
}

/// A JSON array of string literals.
pub open spec fn json_string_array(elems: Seq<Seq<char>>) -> Seq<char> {
    seq!['['] + json_string_items(elems) + seq![']']
}

fn push_escaped_char(out: &mut String, c: char)
    ensures
        final(out)@ == old(out)@ + escape_char(c),
{
    if c == '"' {
        push_char(out, '\\');
        push_char(out, '"');
    } else if c == '\\' {
        push_char(out, '\\');
        push_char(out, '\\');
    } else if c == '\u{8}' {
        push_char(out, '\\');
        push_char(out, 'b');
    } else if c == '\t' {
        push_char(out, '\\');
        push_char(out, 't');
    } else if c == '\n' {
        push_char(out, '\\');
        push_char(out, 'n');
    } else if c == '\u{c}' {
        push_char(out, '\\');
        push_char(out, 'f');
    } else if c == '\r' {
        push_char(out, '\\');
        push_char(out, 'r');
    } else if (c as u32) < 0x20 {
        let code = c as u32;
        push_char(out, '\\');
        push_char(out, 'u');
        push_char(out, '0');
        push_char(out, '0');
        push_char(out, hex_digit_char((code / 16) as u8));
        push_char(out, hex_digit_char((code % 16) as u8));
    } else {
        push_char(out, c);
    }
    proof {
        assert(out@ =~= old(out)@ + escape_char(c));
    }
}

/// Escape a string body for inclusion in a JSON string literal.
pub fn escape_json_string(s: &str) -> (r: String)
    ensures
        r@ == escape_str(s@),
{
    let n = s.unicode_len();
    let mut out = String::new();
    let mut i: usize = 0;
    while i < n
        invariant
            n == s@.len(),
            i <= n,
            out@ == escape_str(s@.take(i as int)),
        decreases n - i,
    {
        let c = s.get_char(i);
        push_escaped_char(&mut out, c);
        proof {
            assert(s@.take(i as int + 1).drop_last() =~= s@.take(i as int));
        }
        i = i + 1;
    }
    proof {
        assert(s@.take(n as int) =~= s@);
    }
    out
}

fn push_json_string(out: &mut String, s: &str)
    ensures
        final(out)@ == old(out)@ + json_string(s@),
{
    push_char(out, '"');
    let e = escape_json_string(s);
    out.append(e.as_str());
    push_char(out, '"');
    proof {
        assert(out@ =~= old(out)@ + json_string(s@));
    }
}

fn push_u64(out: &mut String, n: u64)
    ensures
        final(out)@ == old(out)@ + dec_str(n as int),
    decreases n,
{
    if n < 10 {
        push_char(out, hex_digit_char(n as u8));
    } else {
        push_u64(out, n / 10);
        push_char(out, hex_digit_char((n % 10) as u8));
    }
    proof {
        assert(out@ =~= old(out)@ + dec_str(n as int));
    }
}

fn push_string_array(out: &mut String, items: &Vec<String>)
    ensures
        final(out)@ == old(out)@ + json_string_array(items.deep_view()),
{
    push_char(out, '[');
    let n = items.len();
    let mut i: usize = 0;
    while i < n
        invariant
            n == items@.len(),
            i <= n,
            out@ == old(out)@ + seq!['['] + json_string_items(items.deep_view().take(i as int)),
        decreases n - i,
    {
        if i > 0 {
            push_char(out, ',');
        }
        push_json_string(out, items[i].as_str());
        proof {
            assert(items.deep_view().take(i as int + 1).drop_last() =~= items.deep_view().take(
                i as int,
            ));
            assert(out@ =~= old(out)@ + seq!['['] + json_string_items(
                items.deep_view().take(i as int + 1),
            ));
        }
        i = i + 1;
    }
    push_char(out, ']');
    proof {
        assert(items.deep_view().take(n as int) =~= items.deep_view());
        assert(out@ =~= old(out)@ + json_string_array(items.deep_view()));
    }
}

/// The JSON object carrying registration parameters. Field order is fixed,
/// and the auth token is left out entirely — not sent as `null` — when no
/// token is set.
pub open spec fn registration_params_json(
    layer: Seq<char>,
    priority: int,
    capabilities: Seq<Seq<char>>,
    selectors: Seq<Seq<char>>,
    auth_token: Option<Seq<char>>,
) -> Seq<char> {
    "{\"layer\":"@ + json_string(layer) + ",\"priority\":"@ + dec_str(priority)
        + ",\"capabilities\":"@ + json_string_array(capabilities) + ",\"selectors\":"@
        + json_string_array(selectors) + (match auth_token {
        Option::Some(t) => ",\"auth_token\":"@ + json_string(t),
        Option::None => Seq::<char>::empty(),
    }) + "}"@
}

/// The registration parameter object of a params value.
pub open spec fn registration_params_json_of(p: RegistrationParams) -> Seq<char> {
    registration_params_json(
        p.layer@,
        p.priority as int,
        p.capabilities.deep_view(),
        p.selectors.deep_view(),
        p.auth_token.deep_view(),
    )
}

/// A JSON-RPC request envelope around already-encoded parameters.
pub open spec fn json_request(method: Seq<char>, params: Seq<char>, id: Seq<char>) -> Seq<char> {
    "{\"jsonrpc\":\"2.0\",\"method\":"@ + json_string(method) + ",\"params\":"@ + params
        + ",\"id\":"@ + json_string(id) + "}"@
}

/// A JSON-RPC notification envelope (no identifier, no reply owed).
pub open spec fn json_notification(method: Seq<char>, params: Seq<char>) -> Seq<char> {
    "{\"jsonrpc\":\"2.0\",\"method\":"@ + json_string(method) + ",\"params\":"@ + params + "}"@
}

fn push_registration_params(out: &mut String, p: &RegistrationParams)
    ensures
        final(out)@ == old(out)@ + registration_params_json_of(*p),
{
    out.append("{\"layer\":");
    push_json_string(out, p.layer.as_str());
    out.append(",\"priority\":");
    push_u64(out, p.priority as u64);
    out.append(",\"capabilities\":");
    push_string_array(out, &p.capabilities);
    out.append(",\"selectors\":");
    push_string_array(out, &p.selectors);
    match &p.auth_token {
        Some(t) => {
            out.append(",\"auth_token\":");
            push_json_string(out, t.as_str());
        },
        None => {},
    }
    out.append("}");
    proof {
        assert(out@ =~= old(out)@ + registration_params_json_of(*p));
    }
}

/// Encode a registration request.
pub fn registration_request_json(p: &RegistrationParams, id: &str) -> (r: String)
    ensures
        r@ == json_request(methods::REGISTRATION@, registration_params_json_of(*p), id@),
{
    let mut out = String::new();
    out.append("{\"jsonrpc\":\"2.0\",\"method\":");
    push_json_string(&mut out, methods::REGISTRATION);
    out.append(",\"params\":");
    push_registration_params(&mut out, p);
    out.append(",\"id\":");
    push_json_string(&mut out, id);
    out.append("}");
    proof {
        assert(out@ =~= json_request(methods::REGISTRATION@, registration_params_json_of(*p), id@));
    }
    out
}

/// The JSON object echoing a handshake challenge.
pub open spec fn challenge_params_json(response: Seq<char>) -> Seq<char> {
    "{\"response\":"@ + json_string(response) + "}"@
}

fn push_challenge_params(out: &mut String, response: &str)
    ensures
        final(out)@ == old(out)@ + challenge_params_json(response@),
{
    out.append("{\"response\":");
    push_json_string(out, response);
    out.append("}");
    proof {
        assert(out@ =~= old(out)@ + challenge_params_json(response@));
    }
}

/// Encode a challenge-response request.
pub fn challenge_request_json(response: &str, id: &str) -> (r: String)
    ensures
        r@ == json_request(methods::CHALLENGE_RESPONSE@, challenge_params_json(response@), id@),
{
    let mut out = String::new();
    out.append("{\"jsonrpc\":\"2.0\",\"method\":");
    push_json_string(&mut out, methods::CHALLENGE_RESPONSE);
    out.append(",\"params\":");
    push_challenge_params(&mut out, response);
    out.append(",\"id\":");
    push_json_string(&mut out, id);
    out.append("}");
    proof {
        assert(out@ =~= json_request(
            methods::CHALLENGE_RESPONSE@,
            challenge_params_json(response@),
            id@,
        ));
    }
    out
}

/// The JSON object carrying a take-over reason.
pub open spec fn hijack_params_json(reason: Seq<char>) -> Seq<char> {
    "{\"reason\":"@ + json_string(reason) + "}"@
}

fn push_hijack_params(out: &mut String, reason: &str)
    ensures
        final(out)@ == old(out)@ + hijack_params_json(reason@),
{
    out.append("{\"reason\":");
    push_json_string(out, reason);
    out.append("}");
    proof {
        assert(out@ =~= old(out)@ + hijack_params_json(reason@));
    }
}

/// Encode a take-over notification.
pub fn hijack_notification_json(reason: &str) -> (r: String)
    ensures
        r@ == json_notification(methods::HIJACK@, hijack_params_json(reason@)),
{
    let mut out = String::new();
    out.append("{\"jsonrpc\":\"2.0\",\"method\":");
    push_json_string(&mut out, methods::HIJACK);
    out.append(",\"params\":");
    push_hijack_params(&mut out, reason);
    out.append("}");
    proof {
        assert(out@ =~= json_notification(methods::HIJACK@, hijack_params_json(reason@)));
    }
    out
}

/// The wire name of an action command.
pub open spec fn action_cmd_name(c: ActionCommand) -> Seq<char> {
    match c {
        ActionCommand::Click => "click"@,
        ActionCommand::Fill => "fill"@,
        ActionCommand::Hide => "hide"@,
        ActionCommand::Remove => "remove"@,
    }
}

fn action_cmd_str(c: ActionCommand) -> (r: &'static str)
    ensures
        r@ == action_cmd_name(c),
{
    match c {
        ActionCommand::Click => "click",
        ActionCommand::Fill => "fill",
        ActionCommand::Hide => "hide",
        ActionCommand::Remove => "remove",
    }
}

/// The JSON object carrying an action command; `text` is omitted when
/// absent.
pub open spec fn action_params_json(
    cmd: ActionCommand,
    selector: Seq<char>,
    text: Option<Seq<char>>,
) -> Seq<char> {
    "{\"cmd\":"@ + json_string(action_cmd_name(cmd)) + ",\"selector\":"@ + json_string(selector)
        + (match text {
        Option::Some(t) => ",\"text\":"@ + json_string(t),
        Option::None => Seq::<char>::empty(),
    }) + "}"@
}

fn push_action_params(out: &mut String, cmd: ActionCommand, selector: &str, text: &Option<String>)
    ensures
        final(out)@ == old(out)@ + action_params_json(cmd, selector@, text.deep_view()),
{
    out.append("{\"cmd\":");
    push_json_string(out, action_cmd_str(cmd));
    out.append(",\"selector\":");
    push_json_string(out, selector);
    match text {
        Some(t) => {
            out.append(",\"text\":");
            push_json_string(out, t.as_str());
        },
        None => {},
    }
    out.append("}");
    proof {
        assert(out@ =~= old(out)@ + action_params_json(cmd, selector@, text.deep_view()));
    }
}

/// Encode an action notification.
pub fn action_notification_json(cmd: ActionCommand, selector: &str, text: &Option<String>) -> (r:
    String)
    ensures
        r@ == json_notification(
            methods::ACTION@,
            action_params_json(cmd, selector@, text.deep_view()),
        ),
{
    let mut out = String::new();
    out.append("{\"jsonrpc\":\"2.0\",\"method\":");
    push_json_string(&mut out, methods::ACTION);
    out.append(",\"params\":");
    push_action_params(&mut out, cmd, selector, text);
    out.append("}");
    proof {
        assert(out@ =~= json_notification(
            methods::ACTION@,
            action_params_json(cmd, selector@, text.deep_view()),
        ));
    }
    out
}

/// The JSON object carrying a resume request.
pub open spec fn resume_params_json(request_recheck: bool) -> Seq<char> {
    "{\"request_recheck\":"@ + json_bool(request_recheck) + "}"@
}

fn push_resume_params(out: &mut String, request_recheck: bool)
    ensures
        final(out)@ == old(out)@ + resume_params_json(request_recheck),
{
    out.append("{\"request_recheck\":");
    if request_recheck {
        out.append("true");
    } else {
        out.append("false");
    }
    out.append("}");
    proof {
        assert(out@ =~= old(out)@ + resume_params_json(request_recheck));
    }
}

/// Encode a resume notification.
pub fn resume_notification_json(request_recheck: bool) -> (r: String)
    ensures
        r@ == json_notification(methods::RESUME@, resume_params_json(request_recheck)),
{
    let mut out = String::new();
    out.append("{\"jsonrpc\":\"2.0\",\"method\":");
    push_json_string(&mut out, methods::RESUME);
    out.append(",\"params\":");
    push_resume_params(&mut out, request_recheck);
    out.append("}");
    proof {
        assert(out@ =~= json_notification(methods::RESUME@, resume_params_json(request_recheck)));
    }
    out
}

/// The method name a pre-check decision is announced under.
pub open spec fn pre_check_method_name(r: PreCheckResponse) -> Seq<char> {
    match r {
        PreCheckResponse::Clear => methods::CLEAR@,
        PreCheckResponse::Wait { .. } => methods::WAIT@,
        PreCheckResponse::Hijack { .. } => methods::HIJACK@,
    }
}

/// The JSON object carrying a pre-check decision's parameters.
pub open spec fn pre_check_params_json(r: PreCheckResponse) -> Seq<char> {
    match r {
        PreCheckResponse::Clear => "{}"@,
        PreCheckResponse::Wait { retry_after_ms, reason } => "{\"retryAfterMs\":"@ + dec_str(
            retry_after_ms as int,
        ) + ",\"reason\":"@ + (match reason {
            Option::Some(s) => json_string(s@),
            Option::None => "null"@,
        }) + "}"@,
        PreCheckResponse::Hijack { reason } => "{\"reason\":"@ + json_string(reason@) + "}"@,
    }
}

fn push_pre_check_params(out: &mut String, resp: &PreCheckResponse)
    ensures
        final(out)@ == old(out)@ + pre_check_params_json(*resp),
{
    match resp {
        PreCheckResponse::Clear => {
            out.append("{}");
        },
        PreCheckResponse::Wait { retry_after_ms, reason } => {
            out.append("{\"retryAfterMs\":");
            push_u64(out, *retry_after_ms);
            out.append(",\"reason\":");
            match reason {
                Some(s) => push_json_string(out, s.as_str()),
                None => out.append("null"),
            }
            out.append("}");
        },
        PreCheckResponse::Hijack { reason } => {
            out.append("{\"reason\":");
            push_json_string(out, reason.as_str());
            out.append("}");
        },
    }
    proof {
        assert(out@ =~= old(out)@ + pre_check_params_json(*resp));
    }
}

/// Encode a pre-check decision as the notification answering a pre-check
/// query.
pub fn pre_check_reply_json(resp: &PreCheckResponse) -> (r: String)
    ensures
        r@ == json_notification(pre_check_method_name(*resp), pre_check_params_json(*resp)),
{
    let mut out = String::new();
    out.append("{\"jsonrpc\":\"2.0\",\"method\":");
    match resp {
        PreCheckResponse::Clear => push_json_string(&mut out, methods::CLEAR),
        PreCheckResponse::Wait { .. } => push_json_string(&mut out, methods::WAIT),
        PreCheckResponse::Hijack { .. } => push_json_string(&mut out, methods::HIJACK),
    }
    out.append(",\"params\":");
    push_pre_check_params(&mut out, resp);
    out.append("}");
    proof {
        assert(out@ =~= json_notification(
            pre_check_method_name(*resp),
            pre_check_params_json(*resp),
        ));
    }
    out
}

} // verus!
