//! Calls of a Bitcoin node's JSON-RPC interface, apart from sending them.

use crate::text::{chars_of, decimal_text, index_of, labelled, string_of, trim};
use vstd::prelude::*;
use vstd::string::StringExecFns;

verus! {

/// How to reach the node.
#[derive(Clone, Debug)]
pub struct BitcoinRpcConfig {
    pub url: String,
    pub username: Option<String>,
    pub password: Option<String>,
    /// A file with the user name and the password, which then need not be given.
    pub cookie_file: Option<String>,
    pub timeout_seconds: u64,
    pub retry_seconds: u64,
    /// Seconds between two templates on the same chain tip.
    pub min_interval: u8,
}

/// The least number of seconds that a call may take.
pub const MIN_TIMEOUT_SECONDS: u64 = 10;

/// A client of the node, apart from the connection.
#[derive(Clone, Debug)]
pub struct RpcClient {
    pub url: String,
    pub username: Option<String>,
    pub password: Option<String>,
    pub timeout_seconds: u64,
    pub next_request_id: u64,
}

/// What a call is sent with, apart from its parameters.
#[derive(Clone, Debug)]
pub struct RpcRequest {
    pub jsonrpc: String,
    pub id: u64,
    pub method: String,
}

/// An error that the node reports.
#[derive(Clone, Debug)]
pub struct RpcError {
    pub code: i64,
    pub message: String,
}

/// The node's answer to a call.
#[derive(Clone, Debug)]
pub struct RpcEnvelope<T> {
    pub result: T,
    pub error: Option<RpcError>,
}

/// Why a call has no result.
#[derive(Clone, Debug)]
pub enum RpcFailure {
    /// The call was not sent.
    Transport { error: String },
    /// The answer was not received.
    ResponseRead { error: String },
    /// The answer is not what an answer looks like.
    InvalidJson { status: String, error: String },
    /// The node reports an error.
    Reported { code: i64, message: String },
    /// The result is not what the call gives.
    InvalidResult { error: String },
}

/// The texts behind an optional value.
pub open spec fn optional_text(text: Option<String>) -> Option<Seq<char>> {
    match text {
        Some(t) => Some(t@),
        None => None,
    }
}

/// A user name and a password, or the message that tells why there are none.
pub type CredentialOutcome = Result<(Option<Seq<char>>, Option<Seq<char>>), Seq<char>>;

/// The user name and the password of the settings. Those of the cookie file, whose text is
/// `cookie`, come first: they stand on both sides of the first colon.
pub open spec fn credentials(config: BitcoinRpcConfig, cookie: Seq<char>) -> CredentialOutcome {
    match config.cookie_file {
        Some(path) => {
            let text = crate::text::trimmed(cookie);
            if text.contains(':') {
                let user = crate::text::before(text, ':');
                Ok((Some(user), Some(text.skip(user.len() as int + 1))))
            } else {
                Err("Bitcoin RPC cookie "@ + path@ + " is not in username:password form"@)
            }
        },
        None => if config.username is Some != config.password is Some {
            Err("Bitcoin RPC username and password must be configured together"@)
        } else {
            Ok((optional_text(config.username), optional_text(config.password)))
        },
    }
}

/// A number in decimal notation, with a sign if it is negative.
pub open spec fn signed_decimal(n: int) -> Seq<char> {
    if n < 0 {
        "-"@ + crate::text::decimal((-n) as nat)
    } else {
        crate::text::decimal(n as nat)
    }
}

/// The decimal notation of a number.
fn signed_text(n: i64) -> (text: String)
    ensures
        text@ == signed_decimal(n as int),
{
    if n < 0 {
        let magnitude = (-(n as i128)) as u64;
        labelled("-", decimal_text(magnitude).as_str())
    } else {
        decimal_text(n as u64)
    }
}

impl RpcFailure {
    /// The message for the failure of a call of `method`.
    pub open spec fn message(self, method: Seq<char>) -> Seq<char> {
        "Bitcoin RPC "@ + method + match self {
            RpcFailure::Transport { error } => " transport failure: "@ + error@,
            RpcFailure::ResponseRead { error } => " response read failure: "@ + error@,
            RpcFailure::InvalidJson { status, error } => " returned HTTP "@ + status@
                + " with invalid JSON: "@ + error@,
            RpcFailure::Reported { code, message } => " error "@ + signed_decimal(code as int)
                + ": "@ + message@,
            RpcFailure::InvalidResult { error } => " returned an invalid result: "@ + error@,
        }
    }

    /// The message for the failure of a call of `method`.
    pub fn describe(&self, method: &str) -> (text: String)
        ensures
            text@ == self.message(method@),
    {
        let tail = match self {
            RpcFailure::Transport { error } => labelled(" transport failure: ", error.as_str()),
            RpcFailure::ResponseRead { error } => labelled(
                " response read failure: ",
                error.as_str(),
            ),
            RpcFailure::InvalidJson { status, error } => {
                let mut tail = labelled(" returned HTTP ", status.as_str());
                tail.append(" with invalid JSON: ");
                tail.append(error.as_str());
                tail
            },
            RpcFailure::Reported { code, message } => {
                let mut tail = labelled(" error ", signed_text(*code).as_str());
                tail.append(": ");
                tail.append(message.as_str());
                tail
            },
            RpcFailure::InvalidResult { error } => labelled(
                " returned an invalid result: ",
                error.as_str(),
            ),
        };
        let mut text = labelled("Bitcoin RPC ", method);
        text.append(tail.as_str());
        text
    }
}

/// Whether a client has the user name and the password that `expected` says.
pub open spec fn has_credentials(client: RpcClient, expected: CredentialOutcome) -> bool {
    expected == CredentialOutcome::Ok(
        (optional_text(client.username), optional_text(client.password)),
    )
}

impl RpcClient {
    /// A client with the given settings. `cookie` is the text of the cookie file, if the settings
    /// name one.
    pub fn new(config: &BitcoinRpcConfig, cookie: &str) -> (client: Result<RpcClient, String>)
        ensures
            match client {
                Ok(c) => {
                    &&& has_credentials(c, credentials(*config, cookie@))
                    &&& c.url@ == config.url@
                    &&& c.timeout_seconds == if config.timeout_seconds < MIN_TIMEOUT_SECONDS {
                        MIN_TIMEOUT_SECONDS
                    } else {
                        config.timeout_seconds
                    }
                    &&& c.next_request_id == 1
                },
                Err(message) => credentials(*config, cookie@) == CredentialOutcome::Err(message@),
            },
    {
        let mut username = config.username.clone();
        let mut password = config.password.clone();
        if let Some(path) = &config.cookie_file {
            let chars = chars_of(trim(cookie));
            let colon = index_of(&chars, ':', 0);
            proof {
                assert(chars@.skip(0) =~= chars@);
            }
            if colon == chars.len() {
                let mut message = labelled("Bitcoin RPC cookie ", path.as_str());
                message.append(" is not in username:password form");
                proof {
                    assert(!chars@.contains(':'));
                }
                return Err(message);
            }
            proof {
                assert(chars@[colon as int] == ':');
                assert(chars@.skip(colon + 1) =~= chars@.subrange(colon + 1, chars@.len() as int));
            }
            username = Some(string_of(&chars, 0, colon));
            password = Some(string_of(&chars, colon + 1, chars.len()));
        }
        if username.is_some() != password.is_some() {
            return Err("Bitcoin RPC username and password must be configured together".to_owned());
        }
        Ok(
            RpcClient {
                url: config.url.clone(),
                username,
                password,
                timeout_seconds: if config.timeout_seconds < MIN_TIMEOUT_SECONDS {
                    MIN_TIMEOUT_SECONDS
                } else {
                    config.timeout_seconds
                },
                next_request_id: 1,
            },
        )
    }

    /// The next call of `method`. Calls are numbered one after the other; after the greatest
    /// number comes zero.
    pub fn request(&mut self, method: &str) -> (request: RpcRequest)
        ensures
            request.jsonrpc@ == "1.0"@,
            request.id == old(self).next_request_id,
            request.method@ == method@,
            *final(self) == (RpcClient {
                next_request_id: if old(self).next_request_id == u64::MAX {
                    0
                } else {
                    (old(self).next_request_id + 1) as u64
                },
                ..*old(self)
            }),
    {
        let id = self.next_request_id;
        self.next_request_id = id.wrapping_add(1);
        RpcRequest { jsonrpc: "1.0".to_owned(), id, method: method.to_owned() }
    }
}

impl<T> RpcEnvelope<T> {
    /// The result of a call of `method`, unless the node reports an error.
    pub fn into_result(self, method: &str) -> (result: Result<T, String>)
        ensures
            match self.error {
                None => result == Ok::<T, String>(self.result),
                Some(error) => result matches Err(message) && message@ == (RpcFailure::Reported {
                    code: error.code,
                    message: error.message,
                }).message(method@),
            },
    {
        match self.error {
            None => Ok(self.result),
            Some(error) => Err(
                RpcFailure::Reported { code: error.code, message: error.message }.describe(method),
            ),
        }
    }
}

/// What a template is asked for with.
#[derive(Clone, Debug)]
pub struct TemplateRequest {
    pub rules: Vec<String>,
    pub capabilities: Vec<String>,
    /// The mark of the last template. The node answers once it has another one.
    pub longpollid: Option<String>,
}

/// A question for a template.
pub fn template_request(longpollid: Option<String>) -> (request: TemplateRequest)
    ensures
        request.rules@.len() == 1,
        request.rules@[0]@ == "segwit"@,
        request.capabilities@.len() == 3,
        request.capabilities@[0]@ == "longpoll"@,
        request.capabilities@[1]@ == "coinbasevalue"@,
        request.capabilities@[2]@ == "workid"@,
        request.longpollid == longpollid,
{
    let mut rules: Vec<String> = Vec::new();
    rules.push("segwit".to_owned());
    let mut capabilities: Vec<String> = Vec::new();
    capabilities.push("longpoll".to_owned());
    capabilities.push("coinbasevalue".to_owned());
    capabilities.push("workid".to_owned());
    TemplateRequest { rules, capabilities, longpollid }
}

/// What the node's answer to a submitted block means: it gives a reason only for a block that it
/// does not accept.
pub fn submit_verdict(reason: Option<String>) -> (verdict: Result<(), String>)
    ensures
        match reason {
            None => verdict is Ok,
            Some(text) => verdict matches Err(message) && message@
                == "Bitcoin node rejected solved block: "@ + text@,
        },
{
    match reason {
        None => Ok(()),
        Some(text) => Err(labelled("Bitcoin node rejected solved block: ", text.as_str())),
    }
}

/// The user name and the password of a cookie file are its text, without white space around it, on
/// both sides of the first colon. Without a cookie file they are those of the settings, of which
/// both or none are given.
pub proof fn credentials_are_both_given_or_none(
    config: BitcoinRpcConfig,
    cookie: Seq<char>,
    client: RpcClient,
)
    requires
        has_credentials(client, credentials(config, cookie)),
    ensures
        client.username is Some <==> client.password is Some,
        config.cookie_file is Some ==> {
            &&& client.username is Some
            &&& client.username->0@ + seq![':'] + client.password->0@ == crate::text::trimmed(
                cookie,
            )
            &&& !client.username->0@.contains(':')
        },
        config.cookie_file is None ==> {
            &&& client.username is Some <==> config.username is Some
            &&& client.password is Some <==> config.password is Some
            &&& client.username is Some ==> client.username->0@ == config.username->0@
                && client.password->0@ == config.password->0@
        },
{
    if config.cookie_file is Some {
        let text = crate::text::trimmed(cookie);
        crate::text::parts_end_at_the_first_separator(text, ':');
        let user = crate::text::before(text, ':');
        if user.len() == text.len() {
            assert(text.take(text.len() as int) =~= text);
            assert(user == text);
            assert(!text.contains(':'));
        }
        assert(user + seq![':'] + text.skip(user.len() as int + 1) =~= text);
    }
}

/// There are no credentials if and only if the text of a cookie file has no colon or, without such a
/// file, only one of user name and password is given. The cookie file comes first.
pub proof fn credentials_fail_for_a_reason(config: BitcoinRpcConfig, cookie: Seq<char>)
    ensures
        config.cookie_file is Some ==> {
            &&& credentials(config, cookie) is Err <==> !crate::text::trimmed(cookie).contains(':')
            &&& credentials(config, cookie) is Err ==> credentials(config, cookie)->Err_0
                == "Bitcoin RPC cookie "@ + config.cookie_file->0@
                + " is not in username:password form"@
        },
        config.cookie_file is None ==> {
            &&& credentials(config, cookie) is Ok <==> (config.username is None
                && config.password is None) || (config.username is Some && config.password is Some)
            &&& credentials(config, cookie) is Err ==> credentials(config, cookie)->Err_0
                == "Bitcoin RPC username and password must be configured together"@
        },
{
}

/// A number in decimal notation stands for itself; a negative one has a sign in front of its
/// magnitude.
pub proof fn signed_notation_stands_for_its_number(n: int)
    ensures
        n >= 0 ==> crate::text::decimal_value(signed_decimal(n)) == n,
        n < 0 ==> signed_decimal(n)[0] == '-' && crate::text::decimal_value(
            signed_decimal(n).skip(1),
        ) == -n,
{
    reveal_strlit("-");
    if n < 0 {
        crate::text::decimal_notation_stands_for_its_number((-n) as nat);
        assert(signed_decimal(n).skip(1) =~= crate::text::decimal((-n) as nat));
    } else {
        crate::text::decimal_notation_stands_for_its_number(n as nat);
    }
}

/// The message for a failure names the method, what failed, and the reason as it was given.
pub proof fn failures_name_method_and_reason(
    failure: RpcFailure,
    method: Seq<char>,
)
    ensures
        ({
            let front = "Bitcoin RPC "@ + method;
            let message = failure.message(method);
            let tail = message.skip(front.len() as int);
            &&& message.take(front.len() as int) == front
            &&& failure matches RpcFailure::Transport { error } ==> tail
                == " transport failure: "@ + error@
            &&& failure matches RpcFailure::ResponseRead { error } ==> tail
                == " response read failure: "@ + error@
            &&& failure matches RpcFailure::InvalidJson { status, error } ==> tail
                == " returned HTTP "@ + status@ + " with invalid JSON: "@ + error@
            &&& failure matches RpcFailure::Reported { code, message: text } ==> tail
                == " error "@ + signed_decimal(code as int) + ": "@ + text@
            &&& failure matches RpcFailure::InvalidResult { error } ==> tail
                == " returned an invalid result: "@ + error@
        }),
{
    let front = "Bitcoin RPC "@ + method;
    let message = failure.message(method);
    assert(message.take(front.len() as int) =~= front);
    let tail = match failure {
        RpcFailure::Transport { error } => " transport failure: "@ + error@,
        RpcFailure::ResponseRead { error } => " response read failure: "@ + error@,
        RpcFailure::InvalidJson { status, error } => " returned HTTP "@ + status@
            + " with invalid JSON: "@ + error@,
        RpcFailure::Reported { code, message } => " error "@ + signed_decimal(code as int) + ": "@
            + message@,
        RpcFailure::InvalidResult { error } => " returned an invalid result: "@ + error@,
    };
    assert(message.skip(front.len() as int) =~= tail);
}

/// Calls are numbered one after the other, and numbering them changes nothing else of a client.
pub proof fn calls_are_numbered_in_turn(
    client: &mut RpcClient,
    after: &mut RpcClient,
    method: &str,
    other: &str,
    first: RpcRequest,
    second: RpcRequest,
)
    requires
        call_ensures(RpcClient::request, (client, method), first),
        call_ensures(RpcClient::request, (after, other), second),
        *old(after) == *final(client),
    ensures
        first.id == old(client).next_request_id,
        second.id as int == (first.id + 1) % 0x1_0000_0000_0000_0000,
        first.method@ == method@,
        second.method@ == other@,
        first.jsonrpc@ == "1.0"@,
        final(client).url == old(client).url,
        final(client).username == old(client).username,
        final(client).password == old(client).password,
        final(client).timeout_seconds == old(client).timeout_seconds,
{
}

/// A new client waits at least ten seconds for an answer, and longer if the settings say so.
pub proof fn clients_wait_ten_seconds_or_more(
    config: BitcoinRpcConfig,
    cookie: &str,
    client: Result<RpcClient, String>,
)
    requires
        call_ensures(RpcClient::new, (&config, cookie), client),
        client is Ok,
    ensures
        client->Ok_0.timeout_seconds >= 10,
        client->Ok_0.timeout_seconds >= config.timeout_seconds,
        client->Ok_0.timeout_seconds == 10 || client->Ok_0.timeout_seconds
            == config.timeout_seconds,
        client->Ok_0.url@ == config.url@,
        client->Ok_0.next_request_id == 1,
{
}

/// An answer with an error has no result, and one without has the result that it holds.
pub proof fn answers_are_results_or_errors(
    envelope: RpcEnvelope<u64>,
    method: &str,
    result: Result<u64, String>,
)
    requires
        call_ensures(RpcEnvelope::<u64>::into_result, (envelope, method), result),
    ensures
        envelope.error is None <==> result is Ok,
        result is Ok ==> result->Ok_0 == envelope.result,
        result is Err ==> result->Err_0@ == "Bitcoin RPC "@ + method@ + (" error "@
            + signed_decimal(envelope.error->0.code as int) + ": "@ + envelope.error->0.message@),
{
}

/// A block is accepted if and only if the node gives no reason against it; the message ends with the
/// reason.
pub proof fn blocks_are_accepted_without_a_reason(
    reason: Option<String>,
    verdict: Result<(), String>,
)
    requires
        call_ensures(submit_verdict, (reason,), verdict),
    ensures
        verdict is Ok <==> reason is None,
        reason is Some ==> verdict->Err_0@ == "Bitcoin node rejected solved block: "@ + reason->0@,
{
}

/// Templates are asked for with the segregated-witness rule, and with the mark of the last one.
pub proof fn templates_are_asked_for_by_their_mark(
    longpollid: Option<String>,
    request: TemplateRequest,
)
    requires
        call_ensures(template_request, (longpollid,), request),
    ensures
        request.longpollid == longpollid,
        request.rules@.len() == 1,
        request.rules@[0]@ == "segwit"@,
        request.capabilities@.len() == 3,
        request.capabilities@[0]@ == "longpoll"@,
        request.capabilities@[1]@ == "coinbasevalue"@,
        request.capabilities@[2]@ == "workid"@,
{
}

} // verus!
