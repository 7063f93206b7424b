use vstd::prelude::*;
use crate::block_number::{BlockNumber, encode_spec, hex_alphabet};
use crate::error::{Error, ProviderError, RpcError};

verus! {

/// A JSON-RPC response envelope, with its result already decoded.
#[derive(Clone, Debug, PartialEq, Eq)]
pub enum ResponseEnvelope<R> {
    Success { id: u64, result: R },
    Failure { id: u64, error: RpcError },
}

/// What the endpoint did with one request.
#[derive(Debug, PartialEq, Eq)]
pub enum HttpReply<R> {
    /// No HTTP response: the connection or the send failed, for this reason.
    Unreachable(String),
    /// An HTTP response with this status; `envelope` is its body parsed as an
    /// envelope, or why that failed.
    Answered { status: u16, envelope: Result<ResponseEnvelope<R>, String> },
}

pub open spec fn is_success_status(status: u16) -> bool {
    200 <= status <= 299
}

pub open spec fn envelope_id<R>(e: ResponseEnvelope<R>) -> u64 {
    match e {
        ResponseEnvelope::Success { id, .. } => id,
        ResponseEnvelope::Failure { id, .. } => id,
    }
}

/// The outcome of a call whose request carried `expected_id`, apart from the
/// text of the messages that this library writes itself.
pub open spec fn settled<R>(expected_id: u64, reply: HttpReply<R>, r: Result<R, Error>) -> bool {
    match reply {
        HttpReply::Unreachable(m) => r == Err::<R, Error>(Error::Provider(ProviderError::Message(m))),
        HttpReply::Answered { status, envelope } => {
            if !is_success_status(status) {
                r == Err::<R, Error>(Error::Provider(ProviderError::Code(status)))
            } else {
                match envelope {
                    Err(m) => r == Err::<R, Error>(Error::Provider(ProviderError::Message(m))),
                    Ok(e) => {
                        if envelope_id(e) != expected_id {
                            r matches Err(Error::Provider(ProviderError::Message(_)))
                        } else {
                            match e {
                                ResponseEnvelope::Success { result, .. } => r == Ok::<R, Error>(result),
                                ResponseEnvelope::Failure { error, .. } => r == Err::<R, Error>(Error::Rpc(error)),
                            }
                        }
                    },
                }
            }
        },
    }
}

/// Turns what the endpoint did into the call's result: a non-2xx status is
/// `Code`, a failed send or an unparsable body is `Message`, an error object is
/// `Rpc`, and an envelope whose id is not the request's is refused.
pub fn settle<R>(expected_id: u64, reply: HttpReply<R>) -> (r: Result<R, Error>)
    ensures
        settled(expected_id, reply, r),
{
    match reply {
        HttpReply::Unreachable(m) => Err(Error::Provider(ProviderError::Message(m))),
        HttpReply::Answered { status, envelope } => {
            if status < 200 || status > 299 {
                return Err(Error::Provider(ProviderError::Code(status)));
            }
            match envelope {
                Err(m) => Err(Error::Provider(ProviderError::Message(m))),
                Ok(ResponseEnvelope::Success { id, result }) => {
                    if id != expected_id {
                        Err(Error::Provider(ProviderError::Message(String::from_str("response id does not match request id"))))
                    } else {
                        Ok(result)
                    }
                },
                Ok(ResponseEnvelope::Failure { id, error }) => {
                    if id != expected_id {
                        Err(Error::Provider(ProviderError::Message(String::from_str("response id does not match request id"))))
                    } else {
                        Err(Error::Rpc(error))
                    }
                },
            }
        },
    }
}

pub open spec fn decimal_alphabet() -> Seq<char> {
    seq!['0', '1', '2', '3', '4', '5', '6', '7', '8', '9']
}

/// Decimal digits of `n`, most significant first, without leading zeros.
pub open spec fn decimal_text(n: nat) -> Seq<char>
    decreases n,
{
    if n < 10 {
        seq![decimal_alphabet()[n as int]]
    } else {
        decimal_text(n / 10).push(decimal_alphabet()[(n % 10) as int])
    }
}

fn append_decimal(out: &mut String, n: u64)
    ensures
        final(out)@ == old(out)@ + decimal_text(n as nat),
    decreases n,
{
    let alphabet: &str = "0123456789";
    proof {
        reveal_strlit("0123456789");
    }
    if n >= 10 {
        append_decimal(out, n / 10);
    }
    let d: usize = (n % 10) as usize;
    let digit: &str = alphabet.substring_char(d, d + 1);
    assert(digit@ =~= seq![decimal_alphabet()[d as int]]);
    out.append(digit);
    assert(out@ =~= old(out)@ + decimal_text(n as nat));
}

/// How one character stands inside JSON quotes: a quote (34) and a
/// backslash (92) get a backslash, a control character (below 32) becomes
/// `\u00` and two hex digits, and anything else stands as it is.
pub open spec fn escape_char(c: char) -> Seq<char> {
    if c as u32 == 34 {
        "\\\""@
    } else if c as u32 == 92 {
        "\\\\"@
    } else if (c as u32) < 32 {
        "\\u00"@ + seq![hex_alphabet()[((c as u32) / 16) as int], hex_alphabet()[((c as u32) % 16) as int]]
    } else {
        seq![c]
    }
}

/// `s` as it stands between JSON quotes.
pub open spec fn json_escape(s: Seq<char>) -> Seq<char>
    decreases s.len(),
{
    if s.len() == 0 {
        Seq::empty()
    } else {
        json_escape(s.drop_last()) + escape_char(s.last())
    }
}

/// The JSON-RPC 2.0 request body of one call; `params` is the JSON text of
/// the positional parameters, without the brackets.
pub open spec fn method_call_body_spec(id: nat, method: Seq<char>, params: Seq<char>) -> Seq<char> {
    "{\"jsonrpc\":\"2.0\",\"id\":"@ + decimal_text(id) + ",\"method\":\""@ + json_escape(method)
        + "\",\"params\":["@ + params + "]}"@
}

fn append_hex_digit(out: &mut String, d: u32)
    requires
        d < 16,
    ensures
        final(out)@ == old(out)@.push(hex_alphabet()[d as int]),
{
    let alphabet: &str = "0123456789abcdef";
    proof {
        reveal_strlit("0123456789abcdef");
    }
    let digit: &str = alphabet.substring_char(d as usize, d as usize + 1);
    assert(digit@ =~= seq![hex_alphabet()[d as int]]);
    out.append(digit);
    assert(out@ =~= old(out)@.push(hex_alphabet()[d as int]));
}

/// Frames one call as a JSON-RPC 2.0 request body, escaping the method name.
pub fn method_call_body(id: u64, method: &str, params: &str) -> (r: String)
    ensures
        r@ == method_call_body_spec(id as nat, method@, params@),
{
    let mut body = String::from_str("{\"jsonrpc\":\"2.0\",\"id\":");
    append_decimal(&mut body, id);
    body.append(",\"method\":\"");
    let ghost prefix = body@;
    let n = method.unicode_len();
    let mut i: usize = 0;
    assert(method@.subrange(0, 0) =~= Seq::<char>::empty());
    assert(body@ =~= prefix + json_escape(method@.subrange(0, 0)));
    while i < n
        invariant
            n == method@.len(),
            i <= n,
            body@ == prefix + json_escape(method@.subrange(0, i as int)),
        decreases n - i,
    {
        let c = method.get_char(i);
        let code = c as u32;
        let ghost before = body@;
        if code == 34 {
            body.append("\\\"");
        } else if code == 92 {
            body.append("\\\\");
        } else if code < 32 {
            body.append("\\u00");
            append_hex_digit(&mut body, code / 16);
            append_hex_digit(&mut body, code % 16);
        } else {
            let one: &str = method.substring_char(i, i + 1);
            assert(one@ =~= seq![c]);
            body.append(one);
        }
        assert(body@ =~= before + escape_char(c));
        let ghost next = method@.subrange(0, i + 1);
        assert(next.drop_last() =~= method@.subrange(0, i as int));
        assert(next.last() == c);
        i = i + 1;
        assert(body@ =~= prefix + json_escape(method@.subrange(0, i as int)));
    }
    assert(method@.subrange(0, n as int) =~= method@);
    body.append("\",\"params\":[");
    body.append(params);
    body.append("]}");
    body
}

/// The JSON text of the parameters of a block request: the selector's wire
/// text as a string, then the flag.
pub open spec fn block_params_spec(selector: BlockNumber, include_transactions: bool) -> Seq<char> {
    "\""@ + encode_spec(selector) + "\","@ + bool_text(include_transactions)
}

pub open spec fn bool_text(b: bool) -> Seq<char> {
    if b {
        "true"@
    } else {
        "false"@
    }
}

pub fn block_params(selector: BlockNumber, include_transactions: bool) -> (r: String)
    ensures
        r@ == block_params_spec(selector, include_transactions),
{
    let mut r = String::from_str("\"");
    let text = selector.encode();
    r.append(text.as_str());
    r.append("\",");
    if include_transactions {
        r.append("true");
    } else {
        r.append("false");
    }
    r
}

} // verus!
