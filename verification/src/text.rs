//! Text rendering for the engine's outward-facing strings: decimal numbers,
//! export-file lines, relay endpoint URLs and payloads, and the operator
//! status line. Every function states the exact character sequence it builds.

use vstd::prelude::*;
use vstd::string::StringExecFns;

verus! {

/// Relies on `String::push`: appends the given character to the end of the
/// string.
pub assume_specification[ String::push ](s: &mut String, c: char)
    ensures
        final(s)@ == old(s)@.push(c),
;

/// The character for one decimal digit.
pub open spec fn digit_char(d: int) -> char {
    if d == 0 {
        '0'
    } else if d == 1 {
        '1'
    } else if d == 2 {
        '2'
    } else if d == 3 {
        '3'
    } else if d == 4 {
        '4'
    } else if d == 5 {
        '5'
    } else if d == 6 {
        '6'
    } else if d == 7 {
        '7'
    } else if d == 8 {
        '8'
    } else {
        '9'
    }
}

/// The decimal rendering of a natural number, most significant digit first,
/// with no leading zeros (a single `'0'` for zero).
pub open spec fn dec_str(n: nat) -> Seq<char>
    decreases n,
{
    if n < 10 {
        seq![digit_char(n as int)]
    } else {
        dec_str(n / 10).push(digit_char((n % 10) as int))
    }
}

fn digit_char_exec(d: u64) -> (c: char)
    requires
        d < 10,
    ensures
        c == digit_char(d as int),
{
    match d {
        0 => '0',
        1 => '1',
        2 => '2',
        3 => '3',
        4 => '4',
        5 => '5',
        6 => '6',
        7 => '7',
        8 => '8',
        _ => '9',
    }
}

/// Renders a number in decimal, exactly as `dec_str` describes.
pub fn u64_to_string(n: u64) -> (s: String)
    ensures
        s@ == dec_str(n as nat),
    decreases n,
{
    if n < 10 {
        let mut s = String::new();
        s.push(digit_char_exec(n));
        proof {
            assert(s@ =~= dec_str(n as nat));
        }
        s
    } else {
        let mut s = u64_to_string(n / 10);
        s.push(digit_char_exec(n % 10));
        s
    }
}

/// One export-file line for a discovery: the locator, then (with
/// size-reporting on) a space and the declared size, then a newline.
pub open spec fn export_line_spec(locator: Seq<char>, size: Option<u64>) -> Seq<char> {
    match size {
        Option::None => locator + "\n"@,
        Option::Some(n) => locator + " "@ + dec_str(n as nat) + "\n"@,
    }
}

/// Builds the export-file line for one discovered locator.
pub fn export_line(locator: &str, size: Option<u64>) -> (line: String)
    ensures
        line@ == export_line_spec(locator@, size),
{
    let mut line = String::from_str(locator);
    match size {
        Option::None => {
            line.append("\n");
            proof {
                assert(line@ =~= export_line_spec(locator@, size));
            }
        },
        Option::Some(n) => {
            line.append(" ");
            let digits = u64_to_string(n);
            line.append(digits.as_str());
            line.append("\n");
            proof {
                assert(line@ =~= export_line_spec(locator@, size));
            }
        },
    }
    line
}

/// The chat-relay A notification URL: one outbound call carrying the
/// discovered locator as a photo reference to a channel via a bot credential.
pub open spec fn relay_bot_url_spec(token: Seq<char>, channel: Seq<char>, photo: Seq<char>) -> Seq<
    char,
> {
    "https://api.telegram.org/bot"@ + token + "/sendPhoto?chat_id="@ + channel + "&photo="@ + photo
}

/// Builds the chat-relay A notification URL for one discovered locator.
pub fn relay_bot_url(token: &str, channel: &str, photo: &str) -> (url: String)
    ensures
        url@ == relay_bot_url_spec(token@, channel@, photo@),
{
    let mut url = String::from_str("https://api.telegram.org/bot");
    url.append(token);
    url.append("/sendPhoto?chat_id=");
    url.append(channel);
    url.append("&photo=");
    url.append(photo);
    proof {
        assert(url@ =~= relay_bot_url_spec(token@, channel@, photo@));
    }
    url
}

/// The chat-relay B endpoint URL for a webhook identified by id and token.
pub open spec fn webhook_url_spec(id: u64, token: Seq<char>) -> Seq<char> {
    "https://discord.com/api/webhooks/"@ + dec_str(id as nat) + "/"@ + token
}

/// Builds the chat-relay B endpoint URL.
pub fn webhook_url(id: u64, token: &str) -> (url: String)
    ensures
        url@ == webhook_url_spec(id, token@),
{
    let mut url = String::from_str("https://discord.com/api/webhooks/");
    let digits = u64_to_string(id);
    url.append(digits.as_str());
    url.append("/");
    url.append(token);
    proof {
        assert(url@ =~= webhook_url_spec(id, token@));
    }
    url
}

/// The chat-relay B payload: the discovered locator as an embedded image.
pub open spec fn webhook_payload_spec(photo: Seq<char>) -> Seq<char> {
    "{\"embeds\":[{\"image\":{\"url\":\""@ + photo + "\"}}]}"@
}

/// Builds the chat-relay B payload for one discovered locator.
pub fn webhook_payload(photo: &str) -> (body: String)
    ensures
        body@ == webhook_payload_spec(photo@),
{
    let mut body = String::from_str("{\"embeds\":[{\"image\":{\"url\":\"");
    body.append(photo);
    body.append("\"}}]}");
    proof {
        assert(body@ =~= webhook_payload_spec(photo@));
    }
    body
}

/// The operator status line: per-second requests, per-minute discoveries,
/// uptime, and the two lifetime totals.
pub open spec fn status_line_spec(
    requests_per_second: u64,
    found_per_minute: u64,
    uptime_seconds: u64,
    total_requests: u64,
    total_found: u64,
) -> Seq<char> {
    dec_str(requests_per_second as nat) + " req / sec - "@ + dec_str(found_per_minute as nat)
        + " found / min - uptime "@ + dec_str(uptime_seconds as nat) + "s - total reqs "@ + dec_str(
        total_requests as nat,
    ) + " - total found "@ + dec_str(total_found as nat)
}

/// Renders the operator status line.
pub fn status_line(
    requests_per_second: u64,
    found_per_minute: u64,
    uptime_seconds: u64,
    total_requests: u64,
    total_found: u64,
) -> (line: String)
    ensures
        line@ == status_line_spec(
            requests_per_second,
            found_per_minute,
            uptime_seconds,
            total_requests,
            total_found,
        ),
{
    let mut line = u64_to_string(requests_per_second);
    line.append(" req / sec - ");
    let fpm = u64_to_string(found_per_minute);
    line.append(fpm.as_str());
    line.append(" found / min - uptime ");
    let up = u64_to_string(uptime_seconds);
    line.append(up.as_str());
    line.append("s - total reqs ");
    let tr = u64_to_string(total_requests);
    line.append(tr.as_str());
    line.append(" - total found ");
    let tf = u64_to_string(total_found);
    line.append(tf.as_str());
    proof {
        assert(line@ =~= status_line_spec(
            requests_per_second,
            found_per_minute,
            uptime_seconds,
            total_requests,
            total_found,
        ));
    }
    line
}

} // verus!
