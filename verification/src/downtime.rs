//! Downtimes of a check: the request parameters for listing them and the
//! decoding of the response, which is either an array of downtime records
//! or an error object.

use vstd::prelude::*;

verus! {

use crate::json::{
    arr_model, obj_lookup, obj_model, obj_get, get_str_field, get_u64_field, parse_json,
    json_model, spec_str_field, spec_u64_field, Json, JsonSpec, DecodeError,
};
use crate::numbers::{nat_to_digits, spec_parse_u32, u32_to_string};
use crate::text::spec_parse_bool;
use crate::params::{
    bool_failure, bool_value_of, failures_match, opt_text, pairs_model, u32_failure, u32_value_of,
    ArgSource, ParamError, Parser,
};

/// One recorded interval during which a check was failing.
pub struct Downtime {
    pub id: Option<String>,
    pub error: Option<String>,
    pub started_at: Option<String>,
    pub ended_at: Option<String>,
    pub duration: Option<u64>,
}

/// Whether an object has the downtime shape: every known member, where
/// present, carries the right type.  Unknown members are ignored.
pub open spec fn spec_downtime_ok(fs: Seq<(Seq<char>, JsonSpec)>) -> bool {
    &&& spec_str_field(fs, "id"@) is Some
    &&& spec_str_field(fs, "error"@) is Some
    &&& spec_str_field(fs, "started_at"@) is Some
    &&& spec_str_field(fs, "ended_at"@) is Some
    &&& spec_u64_field(fs, "duration"@) is Some
}

/// The decoded record carries exactly the object's members.
pub open spec fn downtime_matches(d: Downtime, fs: Seq<(Seq<char>, JsonSpec)>) -> bool {
    &&& opt_text(d.id) == spec_str_field(fs, "id"@)->Some_0
    &&& opt_text(d.error) == spec_str_field(fs, "error"@)->Some_0
    &&& opt_text(d.started_at) == spec_str_field(fs, "started_at"@)->Some_0
    &&& opt_text(d.ended_at) == spec_str_field(fs, "ended_at"@)->Some_0
    &&& d.duration == spec_u64_field(fs, "duration"@)->Some_0
}

/// Decodes one downtime object.
pub fn decode_downtime(fields: &Vec<(String, Json)>) -> (r: Result<Downtime, DecodeError>)
    ensures
        spec_downtime_ok(obj_model(fields@)) ==> (r matches Ok(d) && downtime_matches(
            d,
            obj_model(fields@),
        )),
        !spec_downtime_ok(obj_model(fields@)) ==> r is Err,
{
    let id = match get_str_field(fields, "id") {
        Ok(v) => v,
        Err(e) => {
            return Err(e);
        },
    };
    let error = match get_str_field(fields, "error") {
        Ok(v) => v,
        Err(e) => {
            return Err(e);
        },
    };
    let started_at = match get_str_field(fields, "started_at") {
        Ok(v) => v,
        Err(e) => {
            return Err(e);
        },
    };
    let ended_at = match get_str_field(fields, "ended_at") {
        Ok(v) => v,
        Err(e) => {
            return Err(e);
        },
    };
    let duration = match get_u64_field(fields, "duration") {
        Ok(v) => v,
        Err(e) => {
            return Err(e);
        },
    };
    Ok(Downtime { id, error, started_at, ended_at, duration })
}

/// The downtimes envelope: the remote API answers either with an array of
/// downtime records or with an error object.
pub enum Downtimes {
    Error { error: Option<String> },
    Downtimes(Vec<Downtime>),
}

/// Decodes a downtimes response.  The success shape (an array of downtime
/// objects) is attempted first; an object with an `error` member that is a
/// string or null is the failure envelope; anything else is malformed.
pub fn decode_downtimes(body: &str) -> (r: Result<Downtimes, DecodeError>)
    ensures
        match json_model(body@) {
            None => r is Err,
            Some(j) => match j {
                JsonSpec::Arr(items) => if forall|i: int|
                    0 <= i < items.len() ==> (#[trigger] items[i] matches JsonSpec::Obj(fs)
                        && spec_downtime_ok(fs)) {
                    r matches Ok(Downtimes::Downtimes(v)) && v@.len() == items.len() && (forall|
                        i: int,
                    |
                        0 <= i < items.len() ==> downtime_matches(
                            #[trigger] v@[i],
                            items[i]->Obj_0,
                        ))
                } else {
                    r is Err
                },
                JsonSpec::Obj(fs) => match obj_lookup(fs, "error"@) {
                    Some(JsonSpec::Str(t)) => r matches Ok(Downtimes::Error { error })
                        && opt_text(error) == Some(t),
                    Some(JsonSpec::Null) => r matches Ok(Downtimes::Error { error })
                        && error is None,
                    _ => r is Err,
                },
                _ => r is Err,
            },
        },
{
    match parse_json(body) {
        None => Err(DecodeError::MalformedResponse),
        Some(doc) => match doc {
            Json::Arr(items) => {
                let ghost m = arr_model(items@);
                let n = items.len();
                let mut out: Vec<Downtime> = Vec::new();
                let mut k: usize = 0;
                while k < n
                    invariant
                        0 <= k as int <= n as int,
                        n as nat == items@.len(),
                        m == arr_model(items@),
                        m.len() == items@.len(),
                        json_model(body@) == Some(JsonSpec::Arr(m)),
                        out@.len() == k as nat,
                        forall|j: int|
                            0 <= j < k as int ==> (#[trigger] m[j] matches JsonSpec::Obj(fs)
                                && spec_downtime_ok(fs)),
                        forall|j: int|
                            0 <= j < k as int ==> downtime_matches(
                                #[trigger] out@[j],
                                m[j]->Obj_0,
                            ),
                    decreases n as int - k as int,
                {
                    proof {
                        assert(m[k as int] == items[k as int]@);
                    }
                    match &items[k] {
                        Json::Obj(fs) => match decode_downtime(fs) {
                            Ok(d) => {
                                out.push(d);
                            },
                            Err(e) => {
                                proof {
                                    assert(!spec_downtime_ok(m[k as int]->Obj_0));
                                }
                                return Err(e);
                            },
                        },
                        _ => {
                            proof {
                                assert(!(m[k as int] is Obj));
                            }
                            return Err(DecodeError::MalformedResponse);
                        },
                    }
                    k = k + 1;
                }
                Ok(Downtimes::Downtimes(out))
            },
            Json::Obj(fields) => match obj_get(&fields, "error") {
                Some(v) => match v {
                    Json::Str(t) => Ok(Downtimes::Error { error: Some(t.clone()) }),
                    Json::Null => Ok(Downtimes::Error { error: None }),
                    _ => Err(DecodeError::MalformedResponse),
                },
                None => Err(DecodeError::MalformedResponse),
            },
            _ => Err(DecodeError::MalformedResponse),
        },
    }
}

/// The parameters sent when listing a check's downtimes.
pub struct DowntimeParams {
    pub api_key: String,
    pub token: String,
    pub page: Option<u32>,
    pub results: Option<bool>,
}

/// The parse failures this endpoint's fields can contribute, in the order
/// the fields are read.
pub open spec fn downtime_parse_errors(args: ArgSource) -> Seq<(Seq<char>, Seq<char>)> {
    u32_failure(args, "page"@) + bool_failure(args, "results"@)
}

impl DowntimeParams {
    /// Builds the parameters from the command-line arguments: all parse
    /// failures are reported together; the token is required and must not
    /// be empty; there are no validation rules on these fields.
    pub fn parse(api_key: &str, args: &ArgSource) -> (r: Result<DowntimeParams, ParamError>)
        ensures
            ({
                let perrs = downtime_parse_errors(*args);
                let token = args.lookup("token"@);
                if perrs.len() > 0 {
                    r matches Err(ParamError::Parse(es)) && failures_match(es@, perrs)
                } else if token is None || token->Some_0.len() == 0 {
                    r matches Err(ParamError::Build(f)) && f@ == "token"@
                } else {
                    r matches Ok(p) && p.api_key@ == api_key@ && p.token@ == token->Some_0
                        && p.page == u32_value_of(*args, "page"@) && p.results == bool_value_of(
                        *args,
                        "results"@,
                    )
                }
            }),
    {
        let mut parser = Parser::new();
        let token_opt = parser.parse_string_value(args, "token");
        let page = parser.parse_u32_value(args, "page");
        let results = parser.parse_bool_value(args, "results");
        if parser.parse_errors.len() > 0 {
            proof {
                assert(failures_match(parser.parse_errors@, downtime_parse_errors(*args)));
            }
            return Err(ParamError::Parse(parser.parse_errors));
        }
        match token_opt {
            None => Err(ParamError::Build("token".to_owned())),
            Some(token) => {
                if token.as_str().unicode_len() == 0 {
                    Err(ParamError::Build("token".to_owned()))
                } else {
                    Ok(DowntimeParams { api_key: api_key.to_owned(), token, page, results })
                }
            },
        }
    }

    /// The query pairs for this request: the credential under its wire name
    /// `api-key`, then each supplied field; an absent field is omitted
    /// entirely.  The token is not a query field — it goes into the path.
    pub open spec fn query_model(self) -> Seq<(Seq<char>, Seq<char>)> {
        seq![("api-key"@, self.api_key@)] + (match self.page {
            Some(n) => seq![("page"@, nat_to_digits(n as nat))],
            None => Seq::empty(),
        }) + (match self.results {
            Some(b) => seq![
                ("results"@, if b {
                    "true"@
                } else {
                    "false"@
                }),
            ],
            None => Seq::empty(),
        })
    }

    /// Serializes the parameters as query pairs.
    pub fn to_query_pairs(&self) -> (r: Vec<(String, String)>)
        ensures
            pairs_model(r@) == self.query_model(),
    {
        let mut out: Vec<(String, String)> = Vec::new();
        out.push(("api-key".to_owned(), self.api_key.clone()));
        match &self.page {
            Some(n) => {
                out.push(("page".to_owned(), u32_to_string(*n)));
            },
            None => {},
        }
        match &self.results {
            Some(b) => {
                out.push((
                    "results".to_owned(),
                    if *b {
                        "true".to_owned()
                    } else {
                        "false".to_owned()
                    },
                ));
            },
            None => {},
        }
        proof {
            assert(pairs_model(out@) =~= self.query_model());
        }
        out
    }
}

/// Law: when two fields both fail to parse in one invocation, the aggregate
/// list holds exactly two entries, one per field, each naming its own field
/// and its own raw text — whatever else the arguments hold.
pub proof fn lemma_two_parse_failures(args: ArgSource)
    requires
        args.lookup("page"@) matches Some(praw) && spec_parse_u32(praw) is None,
        args.lookup("results"@) matches Some(rraw) && spec_parse_bool(rraw) is None,
    ensures
        downtime_parse_errors(args).len() == 2,
        downtime_parse_errors(args)[0] == ("page"@, args.lookup("page"@)->Some_0),
        downtime_parse_errors(args)[1] == ("results"@, args.lookup("results"@)->Some_0),
{
}

/// Law: a field absent from the record never appears in the query pairs —
/// it is omitted entirely, not written empty.
pub proof fn lemma_query_omits_absent(p: DowntimeParams)
    ensures
        p.page is None ==> forall|i: int|
            0 <= i < p.query_model().len() ==> (#[trigger] p.query_model()[i]).0 != "page"@,
        p.results is None ==> forall|i: int|
            0 <= i < p.query_model().len() ==> (#[trigger] p.query_model()[i]).0 != "results"@,
{
    reveal_strlit("api-key");
    reveal_strlit("page");
    reveal_strlit("results");
    assert("api-key"@.len() == 7);
    assert("page"@.len() == 4);
    assert("results"@.len() == 7);
    assert("api-key"@[0] == 'a');
    assert("results"@[0] == 'r');
}

} // verus!
