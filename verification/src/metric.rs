//! Metrics of a check: the request parameters for fetching them and the
//! decoding of the response, which is either a metrics message or an error
//! object.  The apdex score is a number on the wire; it is kept as its
//! literal text.

use vstd::prelude::*;

verus! {

use crate::json::{
    get_num_field, get_u32_field, json_model, obj_get, obj_lookup, obj_model, parse_json,
    spec_num_field, spec_obj_field, spec_u32_field, DecodeError, Json, JsonSpec,
};
use crate::params::{opt_text, pairs_model, ArgSource, ParamError, Parser};

/// Counts of responses under fixed time thresholds, in milliseconds.
pub struct ResponseTimes {
    pub under125: Option<u32>,
    pub under250: Option<u32>,
    pub under500: Option<u32>,
    pub under1000: Option<u32>,
    pub under2000: Option<u32>,
    pub under4000: Option<u32>,
}

/// Whether an object has the response-times shape.
pub open spec fn spec_response_times_ok(fs: Seq<(Seq<char>, JsonSpec)>) -> bool {
    &&& spec_u32_field(fs, "under125"@) is Some
    &&& spec_u32_field(fs, "under250"@) is Some
    &&& spec_u32_field(fs, "under500"@) is Some
    &&& spec_u32_field(fs, "under1000"@) is Some
    &&& spec_u32_field(fs, "under2000"@) is Some
    &&& spec_u32_field(fs, "under4000"@) is Some
}

/// The decoded record carries exactly the object's members.
pub open spec fn response_times_matches(rt: ResponseTimes, fs: Seq<(Seq<char>, JsonSpec)>) -> bool {
    &&& rt.under125 == spec_u32_field(fs, "under125"@)->Some_0
    &&& rt.under250 == spec_u32_field(fs, "under250"@)->Some_0
    &&& rt.under500 == spec_u32_field(fs, "under500"@)->Some_0
    &&& rt.under1000 == spec_u32_field(fs, "under1000"@)->Some_0
    &&& rt.under2000 == spec_u32_field(fs, "under2000"@)->Some_0
    &&& rt.under4000 == spec_u32_field(fs, "under4000"@)->Some_0
}

/// Decodes a response-times object.
pub fn decode_response_times(fields: &Vec<(String, Json)>) -> (r: Result<
    ResponseTimes,
    DecodeError,
>)
    ensures
        spec_response_times_ok(obj_model(fields@)) ==> (r matches Ok(rt) && response_times_matches(
            rt,
            obj_model(fields@),
        )),
        !spec_response_times_ok(obj_model(fields@)) ==> r is Err,
{
    let under125 = match get_u32_field(fields, "under125") {
        Ok(v) => v,
        Err(e) => {
            return Err(e);
        },
    };
    let under250 = match get_u32_field(fields, "under250") {
        Ok(v) => v,
        Err(e) => {
            return Err(e);
        },
    };
    let under500 = match get_u32_field(fields, "under500") {
        Ok(v) => v,
        Err(e) => {
            return Err(e);
        },
    };
    let under1000 = match get_u32_field(fields, "under1000") {
        Ok(v) => v,
        Err(e) => {
            return Err(e);
        },
    };
    let under2000 = match get_u32_field(fields, "under2000") {
        Ok(v) => v,
        Err(e) => {
            return Err(e);
        },
    };
    let under4000 = match get_u32_field(fields, "under4000") {
        Ok(v) => v,
        Err(e) => {
            return Err(e);
        },
    };
    Ok(ResponseTimes { under125, under250, under500, under1000, under2000, under4000 })
}

/// The timing breakdown of a request, in milliseconds.
pub struct Timings {
    pub redirect: Option<u32>,
    pub namelookup: Option<u32>,
    pub connection: Option<u32>,
    pub handshake: Option<u32>,
    pub response: Option<u32>,
    pub total: Option<u32>,
}

/// Whether an object has the timings shape.
pub open spec fn spec_timings_ok(fs: Seq<(Seq<char>, JsonSpec)>) -> bool {
    &&& spec_u32_field(fs, "redirect"@) is Some
    &&& spec_u32_field(fs, "namelookup"@) is Some
    &&& spec_u32_field(fs, "connection"@) is Some
    &&& spec_u32_field(fs, "handshake"@) is Some
    &&& spec_u32_field(fs, "response"@) is Some
    &&& spec_u32_field(fs, "total"@) is Some
}

/// The decoded record carries exactly the object's members.
pub open spec fn timings_matches(t: Timings, fs: Seq<(Seq<char>, JsonSpec)>) -> bool {
    &&& t.redirect == spec_u32_field(fs, "redirect"@)->Some_0
    &&& t.namelookup == spec_u32_field(fs, "namelookup"@)->Some_0
    &&& t.connection == spec_u32_field(fs, "connection"@)->Some_0
    &&& t.handshake == spec_u32_field(fs, "handshake"@)->Some_0
    &&& t.response == spec_u32_field(fs, "response"@)->Some_0
    &&& t.total == spec_u32_field(fs, "total"@)->Some_0
}

/// Decodes a timings object.
pub fn decode_timings(fields: &Vec<(String, Json)>) -> (r: Result<Timings, DecodeError>)
    ensures
        spec_timings_ok(obj_model(fields@)) ==> (r matches Ok(t) && timings_matches(
            t,
            obj_model(fields@),
        )),
        !spec_timings_ok(obj_model(fields@)) ==> r is Err,
{
    let redirect = match get_u32_field(fields, "redirect") {
        Ok(v) => v,
        Err(e) => {
            return Err(e);
        },
    };
    let namelookup = match get_u32_field(fields, "namelookup") {
        Ok(v) => v,
        Err(e) => {
            return Err(e);
        },
    };
    let connection = match get_u32_field(fields, "connection") {
        Ok(v) => v,
        Err(e) => {
            return Err(e);
        },
    };
    let handshake = match get_u32_field(fields, "handshake") {
        Ok(v) => v,
        Err(e) => {
            return Err(e);
        },
    };
    let response = match get_u32_field(fields, "response") {
        Ok(v) => v,
        Err(e) => {
            return Err(e);
        },
    };
    let total = match get_u32_field(fields, "total") {
        Ok(v) => v,
        Err(e) => {
            return Err(e);
        },
    };
    Ok(Timings { redirect, namelookup, connection, handshake, response, total })
}

/// Request counts over the fetched range.
pub struct Requests {
    pub samples: Option<u32>,
    pub failures: Option<u32>,
    pub satisfied: Option<u32>,
    pub tolerated: Option<u32>,
    pub by_response_time: Option<ResponseTimes>,
    pub timings: Option<Timings>,
}

/// Whether an object has the requests shape, nested objects included.
pub open spec fn spec_requests_ok(fs: Seq<(Seq<char>, JsonSpec)>) -> bool {
    &&& spec_u32_field(fs, "samples"@) is Some
    &&& spec_u32_field(fs, "failures"@) is Some
    &&& spec_u32_field(fs, "satisfied"@) is Some
    &&& spec_u32_field(fs, "tolerated"@) is Some
    &&& match spec_obj_field(fs, "by_response_time"@) {
        None => false,
        Some(None) => true,
        Some(Some(inner)) => spec_response_times_ok(inner),
    }
    &&& match spec_obj_field(fs, "timings"@) {
        None => false,
        Some(None) => true,
        Some(Some(inner)) => spec_timings_ok(inner),
    }
}

/// The decoded record carries exactly the object's members.
pub open spec fn requests_matches(rq: Requests, fs: Seq<(Seq<char>, JsonSpec)>) -> bool {
    &&& rq.samples == spec_u32_field(fs, "samples"@)->Some_0
    &&& rq.failures == spec_u32_field(fs, "failures"@)->Some_0
    &&& rq.satisfied == spec_u32_field(fs, "satisfied"@)->Some_0
    &&& rq.tolerated == spec_u32_field(fs, "tolerated"@)->Some_0
    &&& match spec_obj_field(fs, "by_response_time"@) {
        None => false,
        Some(None) => rq.by_response_time is None,
        Some(Some(inner)) => rq.by_response_time matches Some(rt) && response_times_matches(
            rt,
            inner,
        ),
    }
    &&& match spec_obj_field(fs, "timings"@) {
        None => false,
        Some(None) => rq.timings is None,
        Some(Some(inner)) => rq.timings matches Some(t) && timings_matches(t, inner),
    }
}

/// Decodes a requests object.
pub fn decode_requests(fields: &Vec<(String, Json)>) -> (r: Result<Requests, DecodeError>)
    ensures
        spec_requests_ok(obj_model(fields@)) ==> (r matches Ok(rq) && requests_matches(
            rq,
            obj_model(fields@),
        )),
        !spec_requests_ok(obj_model(fields@)) ==> r is Err,
{
    let samples = match get_u32_field(fields, "samples") {
        Ok(v) => v,
        Err(e) => {
            return Err(e);
        },
    };
    let failures = match get_u32_field(fields, "failures") {
        Ok(v) => v,
        Err(e) => {
            return Err(e);
        },
    };
    let satisfied = match get_u32_field(fields, "satisfied") {
        Ok(v) => v,
        Err(e) => {
            return Err(e);
        },
    };
    let tolerated = match get_u32_field(fields, "tolerated") {
        Ok(v) => v,
        Err(e) => {
            return Err(e);
        },
    };
    let by_response_time = match obj_get(fields, "by_response_time") {
        None => None,
        Some(v) => match v {
            Json::Obj(inner) => match decode_response_times(inner) {
                Ok(rt) => Some(rt),
                Err(e) => {
                    return Err(e);
                },
            },
            _ => {
                return Err(DecodeError::MalformedResponse);
            },
        },
    };
    let timings = match obj_get(fields, "timings") {
        None => None,
        Some(v) => match v {
            Json::Obj(inner) => match decode_timings(inner) {
                Ok(t) => Some(t),
                Err(e) => {
                    return Err(e);
                },
            },
            _ => {
                return Err(DecodeError::MalformedResponse);
            },
        },
    };
    Ok(Requests { samples, failures, satisfied, tolerated, by_response_time, timings })
}

/// The metrics payload: apdex score (kept as its number literal), request
/// counts and timing breakdown.
pub struct Message {
    pub apdex: Option<String>,
    pub requests: Option<Requests>,
    pub timings: Option<Timings>,
}

/// Whether an object has the metrics-message shape.
pub open spec fn spec_message_ok(fs: Seq<(Seq<char>, JsonSpec)>) -> bool {
    &&& spec_num_field(fs, "apdex"@) is Some
    &&& match spec_obj_field(fs, "requests"@) {
        None => false,
        Some(None) => true,
        Some(Some(inner)) => spec_requests_ok(inner),
    }
    &&& match spec_obj_field(fs, "timings"@) {
        None => false,
        Some(None) => true,
        Some(Some(inner)) => spec_timings_ok(inner),
    }
}

/// The decoded message carries exactly the object's members.
pub open spec fn message_matches(m: Message, fs: Seq<(Seq<char>, JsonSpec)>) -> bool {
    &&& opt_text(m.apdex) == spec_num_field(fs, "apdex"@)->Some_0
    &&& match spec_obj_field(fs, "requests"@) {
        None => false,
        Some(None) => m.requests is None,
        Some(Some(inner)) => m.requests matches Some(rq) && requests_matches(rq, inner),
    }
    &&& match spec_obj_field(fs, "timings"@) {
        None => false,
        Some(None) => m.timings is None,
        Some(Some(inner)) => m.timings matches Some(t) && timings_matches(t, inner),
    }
}

/// Decodes a metrics message object.
pub fn decode_message(fields: &Vec<(String, Json)>) -> (r: Result<Message, DecodeError>)
    ensures
        spec_message_ok(obj_model(fields@)) ==> (r matches Ok(m) && message_matches(
            m,
            obj_model(fields@),
        )),
        !spec_message_ok(obj_model(fields@)) ==> r is Err,
{
    let apdex = match get_num_field(fields, "apdex") {
        Ok(v) => v,
        Err(e) => {
            return Err(e);
        },
    };
    let requests = match obj_get(fields, "requests") {
        None => None,
        Some(v) => match v {
            Json::Obj(inner) => match decode_requests(inner) {
                Ok(rq) => Some(rq),
                Err(e) => {
                    return Err(e);
                },
            },
            _ => {
                return Err(DecodeError::MalformedResponse);
            },
        },
    };
    let timings = match obj_get(fields, "timings") {
        None => None,
        Some(v) => match v {
            Json::Obj(inner) => match decode_timings(inner) {
                Ok(t) => Some(t),
                Err(e) => {
                    return Err(e);
                },
            },
            _ => {
                return Err(DecodeError::MalformedResponse);
            },
        },
    };
    Ok(Message { apdex, requests, timings })
}

/// The metrics envelope: the remote API answers with a metrics message,
/// null when there is none, or an error object.
pub enum Metrics {
    Error { error: Option<String> },
    Metrics(Option<Message>),
}

/// Decodes a metrics response.  An object without an `error` member is the
/// success shape; one with an `error` member that is a string or null is the
/// failure envelope; a bare null is a success without a message; anything
/// else is malformed.
pub fn decode_metrics(body: &str) -> (r: Result<Metrics, DecodeError>)
    ensures
        match json_model(body@) {
            None => r is Err,
            Some(j) => match j {
                JsonSpec::Null => r matches Ok(Metrics::Metrics(m)) && m is None,
                JsonSpec::Obj(fs) => match obj_lookup(fs, "error"@) {
                    Some(JsonSpec::Str(t)) => r matches Ok(Metrics::Error { error })
                        && opt_text(error) == Some(t),
                    Some(JsonSpec::Null) => r matches Ok(Metrics::Error { error })
                        && error is None,
                    Some(_) => r is Err,
                    None => if spec_message_ok(fs) {
                        r matches Ok(Metrics::Metrics(m)) && m matches Some(msg)
                            && message_matches(msg, fs)
                    } else {
                        r is Err
                    },
                },
                _ => r is Err,
            },
        },
{
    match parse_json(body) {
        None => Err(DecodeError::MalformedResponse),
        Some(doc) => match doc {
            Json::Null => Ok(Metrics::Metrics(None)),
            Json::Obj(fields) => match obj_get(&fields, "error") {
                Some(v) => match v {
                    Json::Str(t) => Ok(Metrics::Error { error: Some(t.clone()) }),
                    Json::Null => Ok(Metrics::Error { error: None }),
                    _ => Err(DecodeError::MalformedResponse),
                },
                None => match decode_message(&fields) {
                    Ok(msg) => Ok(Metrics::Metrics(Some(msg))),
                    Err(e) => Err(e),
                },
            },
            _ => Err(DecodeError::MalformedResponse),
        },
    }
}

/// The parameters sent when fetching a check's metrics.
pub struct MetricsParams {
    pub api_key: String,
    pub token: String,
    pub from: Option<String>,
    pub to: Option<String>,
    pub group: Option<String>,
}

impl MetricsParams {
    /// Builds the parameters from the command-line arguments.  All fields
    /// are plain text, so no parse failure is possible; the token is
    /// required and must not be empty.
    pub fn parse(api_key: &str, args: &ArgSource) -> (r: Result<MetricsParams, ParamError>)
        ensures
            ({
                let token = args.lookup("token"@);
                if token is None || token->Some_0.len() == 0 {
                    r matches Err(ParamError::Build(f)) && f@ == "token"@
                } else {
                    r matches Ok(p) && p.api_key@ == api_key@ && p.token@ == token->Some_0
                        && opt_text(p.from) == args.lookup("from"@) && opt_text(p.to)
                        == args.lookup("to"@) && opt_text(p.group) == args.lookup("group"@)
                }
            }),
    {
        let mut parser = Parser::new();
        let token_opt = parser.parse_string_value(args, "token");
        let from = parser.parse_string_value(args, "from");
        let to = parser.parse_string_value(args, "to");
        let group = parser.parse_string_value(args, "group");
        match token_opt {
            None => Err(ParamError::Build("token".to_owned())),
            Some(token) => {
                if token.as_str().unicode_len() == 0 {
                    Err(ParamError::Build("token".to_owned()))
                } else {
                    Ok(MetricsParams { api_key: api_key.to_owned(), token, from, to, group })
                }
            },
        }
    }

    /// The query pairs for this request: the credential under its wire name
    /// `api-key`, then each supplied field; an absent field is omitted
    /// entirely.  The token goes into the path, not the query.
    pub open spec fn query_model(self) -> Seq<(Seq<char>, Seq<char>)> {
        seq![("api-key"@, self.api_key@)] + (match self.from {
            Some(t) => seq![("from"@, t@)],
            None => Seq::empty(),
        }) + (match self.to {
            Some(t) => seq![("to"@, t@)],
            None => Seq::empty(),
        }) + (match self.group {
            Some(t) => seq![("group"@, t@)],
            None => Seq::empty(),
        })
    }

    /// Serializes the parameters as query pairs.
    pub fn to_query_pairs(&self) -> (r: Vec<(String, String)>)
        ensures
            pairs_model(r@) == self.query_model(),
    {
        let mut out: Vec<(String, String)> = Vec::new();
        out.push(("api-key".to_owned(), self.api_key.clone()));
        match &self.from {
            Some(t) => {
                out.push(("from".to_owned(), t.clone()));
            },
            None => {},
        }
        match &self.to {
            Some(t) => {
                out.push(("to".to_owned(), t.clone()));
            },
            None => {},
        }
        match &self.group {
            Some(t) => {
                out.push(("group".to_owned(), t.clone()));
            },
            None => {},
        }
        proof {
            assert(pairs_model(out@) =~= self.query_model());
        }
        out
    }
}

/// Law: a field absent from the record never appears in the query pairs —
/// it is omitted entirely, not written empty.
pub proof fn lemma_query_omits_absent(p: MetricsParams)
    ensures
        p.from is None ==> forall|i: int|
            0 <= i < p.query_model().len() ==> (#[trigger] p.query_model()[i]).0 != "from"@,
        p.to is None ==> forall|i: int|
            0 <= i < p.query_model().len() ==> (#[trigger] p.query_model()[i]).0 != "to"@,
        p.group is None ==> forall|i: int|
            0 <= i < p.query_model().len() ==> (#[trigger] p.query_model()[i]).0 != "group"@,
{
    reveal_strlit("api-key");
    reveal_strlit("from");
    reveal_strlit("to");
    reveal_strlit("group");
    assert("api-key"@.len() == 7);
    assert("from"@.len() == 4);
    assert("to"@.len() == 2);
    assert("group"@.len() == 5);
}

} // verus!
