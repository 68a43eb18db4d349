//! Checks: the monitored targets themselves.  This module models the check
//! record the remote API returns, the parameters sent when creating or
//! updating a check, their builder, validation and wire encodings, and the
//! decoding of check responses.

use vstd::prelude::*;

verus! {

use crate::json::{
    arr_model, get_bool_field, get_num_field, get_str_arr_field, get_str_field,
    get_str_map_field, get_u16_field, get_u32_field, json_model, obj_get, obj_lookup, obj_model,
    parse_json, spec_bool_field, spec_num_field, spec_obj_field, spec_str_arr_field,
    spec_str_field, spec_str_map_field, spec_u16_field, spec_u32_field, DecodeError, Json,
    JsonSpec,
};
use crate::metric::{decode_message, spec_message_ok, message_matches, Message};
use crate::numbers::{nat_to_digits, spec_parse_u32, u32_to_string};
use crate::params::{
    bool_failure, decimal_failure, failures_match, opt_text, pairs_model, u32_failure, ArgSource,
    ParamError, Parser,
};
use crate::text::texts_model;
use crate::validate::{
    check_validation_errors, is_url, url_is_valid, valid_period, validate_period,
    violations_match, ValidationFailure,
};

/// The SSL certificate state of a check.
pub struct Ssl {
    pub tested_at: Option<String>,
    pub expires_at: Option<String>,
    pub valid: Option<bool>,
    pub error: Option<String>,
}

/// Whether an object has the SSL shape.
pub open spec fn spec_ssl_ok(fs: Seq<(Seq<char>, JsonSpec)>) -> bool {
    &&& spec_str_field(fs, "tested_at"@) is Some
    &&& spec_str_field(fs, "expires_at"@) is Some
    &&& spec_bool_field(fs, "valid"@) is Some
    &&& spec_str_field(fs, "error"@) is Some
}

/// The decoded record carries exactly the object's members.
pub open spec fn ssl_matches(s: Ssl, fs: Seq<(Seq<char>, JsonSpec)>) -> bool {
    &&& opt_text(s.tested_at) == spec_str_field(fs, "tested_at"@)->Some_0
    &&& opt_text(s.expires_at) == spec_str_field(fs, "expires_at"@)->Some_0
    &&& s.valid == spec_bool_field(fs, "valid"@)->Some_0
    &&& opt_text(s.error) == spec_str_field(fs, "error"@)->Some_0
}

/// Decodes an SSL object.
pub fn decode_ssl(fields: &Vec<(String, Json)>) -> (r: Result<Ssl, DecodeError>)
    ensures
        spec_ssl_ok(obj_model(fields@)) ==> (r matches Ok(s) && ssl_matches(s, obj_model(fields@))),
        !spec_ssl_ok(obj_model(fields@)) ==> r is Err,
{
    let tested_at = match get_str_field(fields, "tested_at") {
        Ok(v) => v,
        Err(e) => {
            return Err(e);
        },
    };
    let expires_at = match get_str_field(fields, "expires_at") {
        Ok(v) => v,
        Err(e) => {
            return Err(e);
        },
    };
    let valid = match get_bool_field(fields, "valid") {
        Ok(v) => v,
        Err(e) => {
            return Err(e);
        },
    };
    let error = match get_str_field(fields, "error") {
        Ok(v) => v,
        Err(e) => {
            return Err(e);
        },
    };
    Ok(Ssl { tested_at, expires_at, valid, error })
}

/// One monitored target as the remote API reports it.  Numbers that may
/// carry a fraction (uptime, apdex threshold) are kept as their literal
/// text.
pub struct Check {
    pub token: Option<String>,
    pub url: Option<String>,
    pub alias: Option<String>,
    pub last_status: Option<u16>,
    pub uptime: Option<String>,
    pub down: Option<bool>,
    pub down_since: Option<String>,
    pub error: Option<String>,
    pub period: Option<u32>,
    pub apdex_t: Option<String>,
    pub string_match: Option<String>,
    pub enabled: Option<bool>,
    pub published: Option<bool>,
    pub disabled_locations: Option<Vec<String>>,
    pub last_check_at: Option<String>,
    pub next_check_at: Option<String>,
    pub mute_until: Option<String>,
    pub favicon_url: Option<String>,
    pub custom_headers: Option<Vec<(String, String)>>,
    pub http_verb: Option<String>,
    pub http_body: Option<String>,
    pub ssl: Option<Ssl>,
    pub metrics: Option<Message>,
}

impl Check {
    /// A check with no field supplied.
    pub fn new() -> (r: Check)
        ensures
            r.token is None,
            r.url is None,
            r.alias is None,
            r.last_status is None,
            r.uptime is None,
            r.down is None,
            r.down_since is None,
            r.error is None,
            r.period is None,
            r.apdex_t is None,
            r.string_match is None,
            r.enabled is None,
            r.published is None,
            r.disabled_locations is None,
            r.last_check_at is None,
            r.next_check_at is None,
            r.mute_until is None,
            r.favicon_url is None,
            r.custom_headers is None,
            r.http_verb is None,
            r.http_body is None,
            r.ssl is None,
            r.metrics is None,
    {
        Check {
            token: None,
            url: None,
            alias: None,
            last_status: None,
            uptime: None,
            down: None,
            down_since: None,
            error: None,
            period: None,
            apdex_t: None,
            string_match: None,
            enabled: None,
            published: None,
            disabled_locations: None,
            last_check_at: None,
            next_check_at: None,
            mute_until: None,
            favicon_url: None,
            custom_headers: None,
            http_verb: None,
            http_body: None,
            ssl: None,
            metrics: None,
        }
    }

    /// Supplies the token.
    pub fn token(&mut self, token: String)
        ensures
            *final(self) == (Check { token: Some(token), ..*old(self) }),
    {
        self.token = Some(token);
    }

    /// Supplies the URL.
    pub fn url(&mut self, url: String)
        ensures
            *final(self) == (Check { url: Some(url), ..*old(self) }),
    {
        self.url = Some(url);
    }

    /// Supplies the polling period.
    pub fn period(&mut self, period: u32)
        ensures
            *final(self) == (Check { period: Some(period), ..*old(self) }),
    {
        self.period = Some(period);
    }

    /// Supplies the apdex threshold, as its literal text.
    pub fn apdex_t(&mut self, apdex_t: String)
        ensures
            *final(self) == (Check { apdex_t: Some(apdex_t), ..*old(self) }),
    {
        self.apdex_t = Some(apdex_t);
    }

    /// Supplies the enabled flag.
    pub fn enabled(&mut self, enabled: bool)
        ensures
            *final(self) == (Check { enabled: Some(enabled), ..*old(self) }),
    {
        self.enabled = Some(enabled);
    }

    /// Supplies the published flag.
    pub fn published(&mut self, published: bool)
        ensures
            *final(self) == (Check { published: Some(published), ..*old(self) }),
    {
        self.published = Some(published);
    }

    /// Supplies the alias.
    pub fn alias(&mut self, alias: String)
        ensures
            *final(self) == (Check { alias: Some(alias), ..*old(self) }),
    {
        self.alias = Some(alias);
    }

    /// Supplies the match string.
    pub fn string_match(&mut self, string_match: String)
        ensures
            *final(self) == (Check { string_match: Some(string_match), ..*old(self) }),
    {
        self.string_match = Some(string_match);
    }

    /// Supplies the mute deadline.
    pub fn mute_until(&mut self, mute_until: String)
        ensures
            *final(self) == (Check { mute_until: Some(mute_until), ..*old(self) }),
    {
        self.mute_until = Some(mute_until);
    }

    /// Supplies the HTTP verb.
    pub fn http_verb(&mut self, http_verb: String)
        ensures
            *final(self) == (Check { http_verb: Some(http_verb), ..*old(self) }),
    {
        self.http_verb = Some(http_verb);
    }

    /// Supplies the HTTP body.
    pub fn http_body(&mut self, http_body: String)
        ensures
            *final(self) == (Check { http_body: Some(http_body), ..*old(self) }),
    {
        self.http_body = Some(http_body);
    }

    /// Supplies the disabled locations.
    pub fn disabled_locations(&mut self, disabled_locations: Vec<String>)
        ensures
            *final(self) == (Check {
                disabled_locations: Some(disabled_locations),
                ..*old(self)
            }),
    {
        self.disabled_locations = Some(disabled_locations);
    }

    /// Supplies the custom headers, as key/value pairs.
    pub fn custom_headers(&mut self, custom_headers: Vec<(String, String)>)
        ensures
            *final(self) == (Check { custom_headers: Some(custom_headers), ..*old(self) }),
    {
        self.custom_headers = Some(custom_headers);
    }
}

/// Whether an object has the check shape, nested objects included.
pub open spec fn spec_check_ok(fs: Seq<(Seq<char>, JsonSpec)>) -> bool {
    &&& spec_str_field(fs, "token"@) is Some
    &&& spec_str_field(fs, "url"@) is Some
    &&& spec_str_field(fs, "alias"@) is Some
    &&& spec_u16_field(fs, "last_status"@) is Some
    &&& spec_num_field(fs, "uptime"@) is Some
    &&& spec_bool_field(fs, "down"@) is Some
    &&& spec_str_field(fs, "down_since"@) is Some
    &&& spec_str_field(fs, "error"@) is Some
    &&& spec_u32_field(fs, "period"@) is Some
    &&& spec_num_field(fs, "apdex_t"@) is Some
    &&& spec_str_field(fs, "string_match"@) is Some
    &&& spec_bool_field(fs, "enabled"@) is Some
    &&& spec_bool_field(fs, "published"@) is Some
    &&& spec_str_arr_field(fs, "disabled_locations"@) is Some
    &&& spec_str_field(fs, "last_check_at"@) is Some
    &&& spec_str_field(fs, "next_check_at"@) is Some
    &&& spec_str_field(fs, "mute_until"@) is Some
    &&& spec_str_field(fs, "favicon_url"@) is Some
    &&& spec_str_map_field(fs, "custom_headers"@) is Some
    &&& spec_str_field(fs, "http_verb"@) is Some
    &&& spec_str_field(fs, "http_body"@) is Some
    &&& match spec_obj_field(fs, "ssl"@) {
        None => false,
        Some(None) => true,
        Some(Some(inner)) => spec_ssl_ok(inner),
    }
    &&& match spec_obj_field(fs, "metrics"@) {
        None => false,
        Some(None) => true,
        Some(Some(inner)) => spec_message_ok(inner),
    }
}

/// The decoded check carries exactly the object's members.
pub open spec fn check_matches(c: Check, fs: Seq<(Seq<char>, JsonSpec)>) -> bool {
    &&& opt_text(c.token) == spec_str_field(fs, "token"@)->Some_0
    &&& opt_text(c.url) == spec_str_field(fs, "url"@)->Some_0
    &&& opt_text(c.alias) == spec_str_field(fs, "alias"@)->Some_0
    &&& c.last_status == spec_u16_field(fs, "last_status"@)->Some_0
    &&& opt_text(c.uptime) == spec_num_field(fs, "uptime"@)->Some_0
    &&& c.down == spec_bool_field(fs, "down"@)->Some_0
    &&& opt_text(c.down_since) == spec_str_field(fs, "down_since"@)->Some_0
    &&& opt_text(c.error) == spec_str_field(fs, "error"@)->Some_0
    &&& c.period == spec_u32_field(fs, "period"@)->Some_0
    &&& opt_text(c.apdex_t) == spec_num_field(fs, "apdex_t"@)->Some_0
    &&& opt_text(c.string_match) == spec_str_field(fs, "string_match"@)->Some_0
    &&& c.enabled == spec_bool_field(fs, "enabled"@)->Some_0
    &&& c.published == spec_bool_field(fs, "published"@)->Some_0
    &&& match spec_str_arr_field(fs, "disabled_locations"@) {
        None => false,
        Some(None) => c.disabled_locations is None,
        Some(Some(ts)) => c.disabled_locations matches Some(v) && texts_model(v@) == ts,
    }
    &&& opt_text(c.last_check_at) == spec_str_field(fs, "last_check_at"@)->Some_0
    &&& opt_text(c.next_check_at) == spec_str_field(fs, "next_check_at"@)->Some_0
    &&& opt_text(c.mute_until) == spec_str_field(fs, "mute_until"@)->Some_0
    &&& opt_text(c.favicon_url) == spec_str_field(fs, "favicon_url"@)->Some_0
    &&& match spec_str_map_field(fs, "custom_headers"@) {
        None => false,
        Some(None) => c.custom_headers is None,
        Some(Some(es)) => c.custom_headers matches Some(v) && pairs_model(v@) == es,
    }
    &&& opt_text(c.http_verb) == spec_str_field(fs, "http_verb"@)->Some_0
    &&& opt_text(c.http_body) == spec_str_field(fs, "http_body"@)->Some_0
    &&& match spec_obj_field(fs, "ssl"@) {
        None => false,
        Some(None) => c.ssl is None,
        Some(Some(inner)) => c.ssl matches Some(s) && ssl_matches(s, inner),
    }
    &&& match spec_obj_field(fs, "metrics"@) {
        None => false,
        Some(None) => c.metrics is None,
        Some(Some(inner)) => c.metrics matches Some(m) && message_matches(m, inner),
    }
}

/// Decodes one check object.
pub fn decode_check(fields: &Vec<(String, Json)>) -> (r: Result<Check, DecodeError>)
    ensures
        spec_check_ok(obj_model(fields@)) ==> (r matches Ok(c) && check_matches(
            c,
            obj_model(fields@),
        )),
        !spec_check_ok(obj_model(fields@)) ==> r is Err,
{
    let token = match get_str_field(fields, "token") {
        Ok(v) => v,
        Err(e) => {
            return Err(e);
        },
    };
    let url = match get_str_field(fields, "url") {
        Ok(v) => v,
        Err(e) => {
            return Err(e);
        },
    };
    let alias = match get_str_field(fields, "alias") {
        Ok(v) => v,
        Err(e) => {
            return Err(e);
        },
    };
    let last_status = match get_u16_field(fields, "last_status") {
        Ok(v) => v,
        Err(e) => {
            return Err(e);
        },
    };
    let uptime = match get_num_field(fields, "uptime") {
        Ok(v) => v,
        Err(e) => {
            return Err(e);
        },
    };
    let down = match get_bool_field(fields, "down") {
        Ok(v) => v,
        Err(e) => {
            return Err(e);
        },
    };
    let down_since = match get_str_field(fields, "down_since") {
        Ok(v) => v,
        Err(e) => {
            return Err(e);
        },
    };
    let error = match get_str_field(fields, "error") {
        Ok(v) => v,
        Err(e) => {
            return Err(e);
        },
    };
    let period = match get_u32_field(fields, "period") {
        Ok(v) => v,
        Err(e) => {
            return Err(e);
        },
    };
    let apdex_t = match get_num_field(fields, "apdex_t") {
        Ok(v) => v,
        Err(e) => {
            return Err(e);
        },
    };
    let string_match = match get_str_field(fields, "string_match") {
        Ok(v) => v,
        Err(e) => {
            return Err(e);
        },
    };
    let enabled = match get_bool_field(fields, "enabled") {
        Ok(v) => v,
        Err(e) => {
            return Err(e);
        },
    };
    let published = match get_bool_field(fields, "published") {
        Ok(v) => v,
        Err(e) => {
            return Err(e);
        },
    };
    let disabled_locations = match get_str_arr_field(fields, "disabled_locations") {
        Ok(v) => v,
        Err(e) => {
            return Err(e);
        },
    };
    let last_check_at = match get_str_field(fields, "last_check_at") {
        Ok(v) => v,
        Err(e) => {
            return Err(e);
        },
    };
    let next_check_at = match get_str_field(fields, "next_check_at") {
        Ok(v) => v,
        Err(e) => {
            return Err(e);
        },
    };
    let mute_until = match get_str_field(fields, "mute_until") {
        Ok(v) => v,
        Err(e) => {
            return Err(e);
        },
    };
    let favicon_url = match get_str_field(fields, "favicon_url") {
        Ok(v) => v,
        Err(e) => {
            return Err(e);
        },
    };
    let custom_headers = match get_str_map_field(fields, "custom_headers") {
        Ok(v) => v,
        Err(e) => {
            return Err(e);
        },
    };
    let http_verb = match get_str_field(fields, "http_verb") {
        Ok(v) => v,
        Err(e) => {
            return Err(e);
        },
    };
    let http_body = match get_str_field(fields, "http_body") {
        Ok(v) => v,
        Err(e) => {
            return Err(e);
        },
    };
    let ssl = match obj_get(fields, "ssl") {
        None => None,
        Some(v) => match v {
            Json::Obj(inner) => match decode_ssl(inner) {
                Ok(s) => Some(s),
                Err(e) => {
                    return Err(e);
                },
            },
            _ => {
                return Err(DecodeError::MalformedResponse);
            },
        },
    };
    let metrics = match obj_get(fields, "metrics") {
        None => None,
        Some(v) => match v {
            Json::Obj(inner) => match decode_message(inner) {
                Ok(m) => Some(m),
                Err(e) => {
                    return Err(e);
                },
            },
            _ => {
                return Err(DecodeError::MalformedResponse);
            },
        },
    };
    let c = Check {
        token,
        url,
        alias,
        last_status,
        uptime,
        down,
        down_since,
        error,
        period,
        apdex_t,
        string_match,
        enabled,
        published,
        disabled_locations,
        last_check_at,
        next_check_at,
        mute_until,
        favicon_url,
        custom_headers,
        http_verb,
        http_body,
        ssl,
        metrics,
    };
    proof {
        let fs = obj_model(fields@);
        let dl = spec_str_arr_field(fs, "disabled_locations"@);
        if dl is Some && dl->Some_0 is Some {
            assert(texts_model(c.disabled_locations->Some_0@) =~= dl->Some_0->Some_0);
        }
        let ch = spec_str_map_field(fs, "custom_headers"@);
        if ch is Some && ch->Some_0 is Some {
            assert(pairs_model(c.custom_headers->Some_0@) =~= ch->Some_0->Some_0);
        }
    }
    Ok(c)
}

/// Decodes a single-check response: any JSON object is read as a check (an
/// error answer appears as its `error` member); anything else is malformed.
pub fn decode_check_response(body: &str) -> (r: Result<Check, DecodeError>)
    ensures
        match json_model(body@) {
            None => r is Err,
            Some(j) => match j {
                JsonSpec::Obj(fs) => if spec_check_ok(fs) {
                    r matches Ok(c) && check_matches(c, fs)
                } else {
                    r is Err
                },
                _ => r is Err,
            },
        },
{
    match parse_json(body) {
        None => Err(DecodeError::MalformedResponse),
        Some(doc) => match doc {
            Json::Obj(fields) => decode_check(&fields),
            _ => Err(DecodeError::MalformedResponse),
        },
    }
}

/// The checks envelope: the remote API answers either with an array of
/// checks or with an error object.
pub enum Checks {
    Error { error: Option<String> },
    Checks(Vec<Check>),
}

/// Decodes the all-checks response.  The success shape (an array of check
/// objects) is attempted first; an object with an `error` member that is a
/// string or null is the failure envelope; anything else is malformed.
pub fn decode_checks(body: &str) -> (r: Result<Checks, DecodeError>)
    ensures
        match json_model(body@) {
            None => r is Err,
            Some(j) => match j {
                JsonSpec::Arr(items) => if forall|i: int|
                    0 <= i < items.len() ==> (#[trigger] items[i] matches JsonSpec::Obj(fs)
                        && spec_check_ok(fs)) {
                    r matches Ok(Checks::Checks(v)) && v@.len() == items.len() && (forall|i: int|
                        0 <= i < items.len() ==> check_matches(#[trigger] v@[i], items[i]->Obj_0))
                } else {
                    r is Err
                },
                JsonSpec::Obj(fs) => match obj_lookup(fs, "error"@) {
                    Some(JsonSpec::Str(t)) => r matches Ok(Checks::Error { error }) && opt_text(
                        error,
                    ) == Some(t),
                    Some(JsonSpec::Null) => r matches Ok(Checks::Error { error }) && error is None,
                    _ => r is Err,
                },
                _ => r is Err,
            },
        },
{
    match parse_json(body) {
        None => Err(DecodeError::MalformedResponse),
        Some(doc) => match doc {
            Json::Arr(items) => {
                let ghost m = arr_model(items@);
                let n = items.len();
                let mut out: Vec<Check> = Vec::new();
                let mut k: usize = 0;
                while k < n
                    invariant
                        0 <= k as int <= n as int,
                        n as nat == items@.len(),
                        m == arr_model(items@),
                        m.len() == items@.len(),
                        json_model(body@) == Some(JsonSpec::Arr(m)),
                        out@.len() == k as nat,
                        forall|j: int|
                            0 <= j < k as int ==> (#[trigger] m[j] matches JsonSpec::Obj(fs)
                                && spec_check_ok(fs)),
                        forall|j: int|
                            0 <= j < k as int ==> check_matches(#[trigger] out@[j], m[j]->Obj_0),
                    decreases n as int - k as int,
                {
                    proof {
                        assert(m[k as int] == items[k as int]@);
                    }
                    match &items[k] {
                        Json::Obj(fs) => match decode_check(fs) {
                            Ok(c) => {
                                out.push(c);
                            },
                            Err(e) => {
                                proof {
                                    assert(!spec_check_ok(m[k as int]->Obj_0));
                                }
                                return Err(e);
                            },
                        },
                        _ => {
                            proof {
                                assert(!(m[k as int] is Obj));
                            }
                            return Err(DecodeError::MalformedResponse);
                        },
                    }
                    k = k + 1;
                }
                Ok(Checks::Checks(out))
            },
            Json::Obj(fields) => match obj_get(&fields, "error") {
                Some(v) => match v {
                    Json::Str(t) => Ok(Checks::Error { error: Some(t.clone()) }),
                    Json::Null => Ok(Checks::Error { error: None }),
                    _ => Err(DecodeError::MalformedResponse),
                },
                None => Err(DecodeError::MalformedResponse),
            },
            _ => Err(DecodeError::MalformedResponse),
        },
    }
}

/// Which operation a parameter record is being built for.
#[derive(Clone, Copy)]
pub enum OperationKind {
    Create,
    Update,
}

/// The parameters sent when creating or updating a check.  The token is
/// empty for a creation; an absent optional field means "leave unchanged"
/// on update and "use the server-side default" on create, and is omitted
/// from the wire entirely.
pub struct CheckParams {
    pub api_key: String,
    pub token: String,
    pub url: Option<String>,
    pub period: Option<u32>,
    pub apdex_t: Option<String>,
    pub string_match: Option<String>,
    pub enabled: Option<bool>,
    pub published: Option<bool>,
    pub alias: Option<String>,
    pub last_check_at: Option<String>,
    pub mute_until: Option<String>,
    pub http_verb: Option<String>,
    pub http_body: Option<String>,
    pub disabled_locations: Option<Vec<String>>,
    pub custom_headers: Option<Vec<(String, String)>>,
}

/// Assembles a [`CheckParams`] from optional typed fields.  A field never
/// set stays indistinguishable from "not supplied"; the required fields are
/// checked only when the record is finished.
pub struct CheckParamsBuilder {
    pub kind: OperationKind,
    pub api_key: Option<String>,
    pub token: Option<String>,
    pub url: Option<String>,
    pub period: Option<u32>,
    pub apdex_t: Option<String>,
    pub string_match: Option<String>,
    pub enabled: Option<bool>,
    pub published: Option<bool>,
    pub alias: Option<String>,
    pub last_check_at: Option<String>,
    pub mute_until: Option<String>,
    pub http_verb: Option<String>,
    pub http_body: Option<String>,
    pub disabled_locations: Option<Vec<String>>,
    pub custom_headers: Option<Vec<(String, String)>>,
}

impl CheckParamsBuilder {
    /// The builder for a creation, pre-seeding the mandatory resource URL.
    pub fn for_create(url: String) -> (r: CheckParamsBuilder)
        ensures
            r.kind is Create,
            r.url == Some(url),
            r.api_key is None,
            r.token is None,
            r.period is None,
            r.apdex_t is None,
            r.string_match is None,
            r.enabled is None,
            r.published is None,
            r.alias is None,
            r.last_check_at is None,
            r.mute_until is None,
            r.http_verb is None,
            r.http_body is None,
            r.disabled_locations is None,
            r.custom_headers is None,
    {
        CheckParamsBuilder {
            kind: OperationKind::Create,
            api_key: None,
            token: None,
            url: Some(url),
            period: None,
            apdex_t: None,
            string_match: None,
            enabled: None,
            published: None,
            alias: None,
            last_check_at: None,
            mute_until: None,
            http_verb: None,
            http_body: None,
            disabled_locations: None,
            custom_headers: None,
        }
    }

    /// The builder for an update, pre-seeding nothing.
    pub fn for_update() -> (r: CheckParamsBuilder)
        ensures
            r.kind is Update,
            r.api_key is None,
            r.token is None,
            r.url is None,
            r.period is None,
            r.apdex_t is None,
            r.string_match is None,
            r.enabled is None,
            r.published is None,
            r.alias is None,
            r.last_check_at is None,
            r.mute_until is None,
            r.http_verb is None,
            r.http_body is None,
            r.disabled_locations is None,
            r.custom_headers is None,
    {
        CheckParamsBuilder {
            kind: OperationKind::Update,
            api_key: None,
            token: None,
            url: None,
            period: None,
            apdex_t: None,
            string_match: None,
            enabled: None,
            published: None,
            alias: None,
            last_check_at: None,
            mute_until: None,
            http_verb: None,
            http_body: None,
            disabled_locations: None,
            custom_headers: None,
        }
    }

    /// Supplies the credential.
    pub fn api_key(&mut self, api_key: String)
        ensures
            *final(self) == (CheckParamsBuilder { api_key: Some(api_key), ..*old(self) }),
    {
        self.api_key = Some(api_key);
    }

    /// Supplies the token.
    pub fn token(&mut self, token: String)
        ensures
            *final(self) == (CheckParamsBuilder { token: Some(token), ..*old(self) }),
    {
        self.token = Some(token);
    }

    /// Supplies the URL.
    pub fn url(&mut self, url: String)
        ensures
            *final(self) == (CheckParamsBuilder { url: Some(url), ..*old(self) }),
    {
        self.url = Some(url);
    }

    /// Supplies the polling period.
    pub fn period(&mut self, period: u32)
        ensures
            *final(self) == (CheckParamsBuilder { period: Some(period), ..*old(self) }),
    {
        self.period = Some(period);
    }

    /// Supplies the apdex threshold, as its literal text.
    pub fn apdex_t(&mut self, apdex_t: String)
        ensures
            *final(self) == (CheckParamsBuilder { apdex_t: Some(apdex_t), ..*old(self) }),
    {
        self.apdex_t = Some(apdex_t);
    }

    /// Supplies the match string.
    pub fn string_match(&mut self, string_match: String)
        ensures
            *final(self) == (CheckParamsBuilder { string_match: Some(string_match), ..*old(self) }),
    {
        self.string_match = Some(string_match);
    }

    /// Supplies the enabled flag.
    pub fn enabled(&mut self, enabled: bool)
        ensures
            *final(self) == (CheckParamsBuilder { enabled: Some(enabled), ..*old(self) }),
    {
        self.enabled = Some(enabled);
    }

    /// Supplies the published flag.
    pub fn published(&mut self, published: bool)
        ensures
            *final(self) == (CheckParamsBuilder { published: Some(published), ..*old(self) }),
    {
        self.published = Some(published);
    }

    /// Supplies the alias.
    pub fn alias(&mut self, alias: String)
        ensures
            *final(self) == (CheckParamsBuilder { alias: Some(alias), ..*old(self) }),
    {
        self.alias = Some(alias);
    }

    /// Supplies the last-check timestamp.
    pub fn last_check_at(&mut self, last_check_at: String)
        ensures
            *final(self) == (CheckParamsBuilder {
                last_check_at: Some(last_check_at),
                ..*old(self)
            }),
    {
        self.last_check_at = Some(last_check_at);
    }

    /// Supplies the mute deadline.
    pub fn mute_until(&mut self, mute_until: String)
        ensures
            *final(self) == (CheckParamsBuilder { mute_until: Some(mute_until), ..*old(self) }),
    {
        self.mute_until = Some(mute_until);
    }

    /// Supplies the HTTP verb.
    pub fn http_verb(&mut self, http_verb: String)
        ensures
            *final(self) == (CheckParamsBuilder { http_verb: Some(http_verb), ..*old(self) }),
    {
        self.http_verb = Some(http_verb);
    }

    /// Supplies the HTTP body.
    pub fn http_body(&mut self, http_body: String)
        ensures
            *final(self) == (CheckParamsBuilder { http_body: Some(http_body), ..*old(self) }),
    {
        self.http_body = Some(http_body);
    }

    /// Supplies the disabled locations.
    pub fn disabled_locations(&mut self, disabled_locations: Vec<String>)
        ensures
            *final(self) == (CheckParamsBuilder {
                disabled_locations: Some(disabled_locations),
                ..*old(self)
            }),
    {
        self.disabled_locations = Some(disabled_locations);
    }

    /// Supplies the custom headers, as key/value pairs.
    pub fn custom_headers(&mut self, custom_headers: Vec<(String, String)>)
        ensures
            *final(self) == (CheckParamsBuilder {
                custom_headers: Some(custom_headers),
                ..*old(self)
            }),
    {
        self.custom_headers = Some(custom_headers);
    }

    /// Finishes the record.  The credential is always required; a creation
    /// requires the URL; an update requires a non-empty token.  The error
    /// names the missing field.
    pub fn build(self) -> (r: Result<CheckParams, String>)
        ensures
            ({
                if self.api_key is None {
                    r matches Err(f) && f@ == "api_key"@
                } else if self.kind is Create && self.url is None {
                    r matches Err(f) && f@ == "url"@
                } else if self.kind is Update && (self.token is None || self.token->Some_0@.len()
                    == 0) {
                    r matches Err(f) && f@ == "token"@
                } else {
                    r matches Ok(p) && p.api_key == self.api_key->Some_0 && p.token@ == (match self
                        .token {
                        Some(t) => t@,
                        None => Seq::<char>::empty(),
                    }) && p.url == self.url && p.period == self.period && p.apdex_t == self.apdex_t
                        && p.string_match == self.string_match && p.enabled == self.enabled
                        && p.published == self.published && p.alias == self.alias
                        && p.last_check_at == self.last_check_at && p.mute_until == self.mute_until
                        && p.http_verb == self.http_verb && p.http_body == self.http_body
                        && p.disabled_locations == self.disabled_locations && p.custom_headers
                        == self.custom_headers
                }
            }),
    {
        let api_key = match self.api_key {
            Some(k) => k,
            None => {
                return Err("api_key".to_owned());
            },
        };
        let token = match self.token {
            Some(t) => t,
            None => String::new(),
        };
        match self.kind {
            OperationKind::Create => {
                if self.url.is_none() {
                    return Err("url".to_owned());
                }
            },
            OperationKind::Update => {
                if token.as_str().unicode_len() == 0 {
                    return Err("token".to_owned());
                }
            },
        }
        Ok(CheckParams {
            api_key,
            token,
            url: self.url,
            period: self.period,
            apdex_t: self.apdex_t,
            string_match: self.string_match,
            enabled: self.enabled,
            published: self.published,
            alias: self.alias,
            last_check_at: self.last_check_at,
            mute_until: self.mute_until,
            http_verb: self.http_verb,
            http_body: self.http_body,
            disabled_locations: self.disabled_locations,
            custom_headers: self.custom_headers,
        })
    }
}

/// The parse failures the check fields can contribute, in the order the
/// fields are read.
pub open spec fn check_parse_errors(args: ArgSource) -> Seq<(Seq<char>, Seq<char>)> {
    u32_failure(args, "period"@) + decimal_failure(args, "apdex_t"@) + bool_failure(
        args,
        "enabled"@,
    ) + bool_failure(args, "published"@)
}

/// The text a field ends up with: the argument when supplied, else the
/// builder's pre-seeded value.
pub open spec fn text_or(args: ArgSource, key: Seq<char>, dflt: Option<String>) -> Option<
    Seq<char>,
> {
    match args.lookup(key) {
        Some(t) => Some(t),
        None => opt_text(dflt),
    }
}

/// The number a field ends up with when its text parses.
pub open spec fn u32_or(args: ArgSource, key: Seq<char>, dflt: Option<u32>) -> Option<u32> {
    match args.lookup(key) {
        Some(raw) => spec_parse_u32(raw),
        None => dflt,
    }
}

/// The boolean a field ends up with when its text parses.
pub open spec fn bool_or(args: ArgSource, key: Seq<char>, dflt: Option<bool>) -> Option<bool> {
    match args.lookup(key) {
        Some(raw) => crate::text::spec_parse_bool(raw),
        None => dflt,
    }
}

/// The decimal literal a field ends up with when its text has the shape.
pub open spec fn decimal_or(args: ArgSource, key: Seq<char>, dflt: Option<String>) -> Option<
    Seq<char>,
> {
    match args.lookup(key) {
        Some(raw) => Some(raw),
        None => opt_text(dflt),
    }
}

/// The token a record ends up with: a supplied non-empty token wins, else
/// the builder's pre-seeded one.
pub open spec fn token_or(args: ArgSource, dflt: Option<String>) -> Option<Seq<char>> {
    match args.lookup("token"@) {
        Some(t) => if t.len() > 0 {
            Some(t)
        } else {
            opt_text(dflt)
        },
        None => opt_text(dflt),
    }
}

impl CheckParams {
    /// The rule violations of this record, all of them: the URL must be a
    /// well-formed absolute URL, the period one of the accepted intervals.
    /// A pure check — the record is read, never changed, so checking twice
    /// gives the same answer.
    pub fn validate(&self) -> (r: Vec<ValidationFailure>)
        ensures
            violations_match(r@, check_validation_errors(opt_text(self.url), self.period)),
    {
        let mut out: Vec<ValidationFailure> = Vec::new();
        match &self.url {
            Some(u) => {
                if !url_is_valid(u.as_str()) {
                    out.push(
                        ValidationFailure {
                            field: "url".to_owned(),
                            message: "is not a well-formed URL".to_owned(),
                        },
                    );
                }
            },
            None => {},
        }
        match &self.period {
            Some(p) => {
                if !validate_period(*p) {
                    out.push(
                        ValidationFailure {
                            field: "period".to_owned(),
                            message: "is not one of the accepted polling periods".to_owned(),
                        },
                    );
                }
            },
            None => {},
        }
        out
    }

    /// Builds the record from the command-line arguments on top of a
    /// pre-seeded builder.  All parse failures are reported together; the
    /// fields this client does not take from the command line are refused;
    /// required fields are checked at finish; all rule violations are
    /// reported together.
    #[verifier::rlimit(100)]
    #[verifier::spinoff_prover]
    pub fn parse(params: CheckParamsBuilder, args: &ArgSource) -> (r: Result<
        CheckParams,
        ParamError,
    >)
        ensures
            ({
                let perrs = check_parse_errors(*args);
                let eff_url = text_or(*args, "url"@, params.url);
                let eff_token = token_or(*args, params.token);
                let eff_period = u32_or(*args, "period"@, params.period);
                if perrs.len() > 0 {
                    r matches Err(ParamError::Parse(es)) && failures_match(es@, perrs)
                } else if args.lookup("disabled_locations"@) is Some {
                    r matches Err(ParamError::Unsupported(f)) && f@ == "disabled_locations"@
                } else if args.lookup("custom_headers"@) is Some {
                    r matches Err(ParamError::Unsupported(f)) && f@ == "custom_headers"@
                } else if params.api_key is None {
                    r matches Err(ParamError::Build(f)) && f@ == "api_key"@
                } else if params.kind is Create && eff_url is None {
                    r matches Err(ParamError::Build(f)) && f@ == "url"@
                } else if params.kind is Update && (eff_token is None || eff_token->Some_0.len()
                    == 0) {
                    r matches Err(ParamError::Build(f)) && f@ == "token"@
                } else if check_validation_errors(eff_url, eff_period).len() > 0 {
                    r matches Err(ParamError::Validation(vs)) && violations_match(
                        vs@,
                        check_validation_errors(eff_url, eff_period),
                    )
                } else {
                    r matches Ok(p) && p.api_key == params.api_key->Some_0 && p.token@ == (
                    match eff_token {
                        Some(t) => t,
                        None => Seq::<char>::empty(),
                    }) && opt_text(p.url) == eff_url && p.period == eff_period && opt_text(
                        p.apdex_t,
                    ) == decimal_or(*args, "apdex_t"@, params.apdex_t) && p.enabled == bool_or(
                        *args,
                        "enabled"@,
                        params.enabled,
                    ) && p.published == bool_or(*args, "published"@, params.published) && opt_text(
                        p.string_match,
                    ) == text_or(*args, "string_match"@, params.string_match) && opt_text(p.alias)
                        == text_or(*args, "alias"@, params.alias) && opt_text(p.mute_until)
                        == text_or(*args, "mute_until"@, params.mute_until) && opt_text(p.http_verb)
                        == text_or(*args, "http_verb"@, params.http_verb) && opt_text(p.http_body)
                        == text_or(*args, "http_body"@, params.http_body) && p.last_check_at
                        == params.last_check_at && p.disabled_locations == params.disabled_locations
                        && p.custom_headers == params.custom_headers
                }
            }),
    {
        let mut b = params;
        let mut parser = Parser::new();
        match parser.parse_string_value(args, "token") {
            Some(t) => {
                if !t.as_str().is_empty() {
                    b.token(t);
                }
            },
            None => {},
        }
        match parser.parse_string_value(args, "url") {
            Some(u) => {
                b.url(u);
            },
            None => {},
        }
        match parser.parse_u32_value(args, "period") {
            Some(p) => {
                b.period(p);
            },
            None => {},
        }
        proof {
            assert(failures_match(parser.parse_errors@, u32_failure(*args, "period"@)));
        }
        match parser.parse_decimal_value(args, "apdex_t") {
            Some(a) => {
                b.apdex_t(a);
            },
            None => {},
        }
        proof {
            assert(failures_match(
                parser.parse_errors@,
                u32_failure(*args, "period"@) + decimal_failure(*args, "apdex_t"@),
            ));
        }
        match parser.parse_bool_value(args, "enabled") {
            Some(e) => {
                b.enabled(e);
            },
            None => {},
        }
        proof {
            assert(failures_match(
                parser.parse_errors@,
                u32_failure(*args, "period"@) + decimal_failure(*args, "apdex_t"@) + bool_failure(
                    *args,
                    "enabled"@,
                ),
            ));
        }
        match parser.parse_bool_value(args, "published") {
            Some(p) => {
                b.published(p);
            },
            None => {},
        }
        proof {
            assert(failures_match(parser.parse_errors@, check_parse_errors(*args)));
        }
        match parser.parse_string_value(args, "string_match") {
            Some(v) => {
                b.string_match(v);
            },
            None => {},
        }
        match parser.parse_string_value(args, "alias") {
            Some(v) => {
                b.alias(v);
            },
            None => {},
        }
        match parser.parse_string_value(args, "mute_until") {
            Some(v) => {
                b.mute_until(v);
            },
            None => {},
        }
        match parser.parse_string_value(args, "http_verb") {
            Some(v) => {
                b.http_verb(v);
            },
            None => {},
        }
        match parser.parse_string_value(args, "http_body") {
            Some(v) => {
                b.http_body(v);
            },
            None => {},
        }
        if parser.parse_errors.len() > 0 {
            return Err(ParamError::Parse(parser.parse_errors));
        }
        if args.is_present("disabled_locations") {
            return Err(ParamError::Unsupported("disabled_locations".to_owned()));
        }
        if args.is_present("custom_headers") {
            return Err(ParamError::Unsupported("custom_headers".to_owned()));
        }
        let rec = match b.build() {
            Ok(p) => p,
            Err(f) => {
                return Err(ParamError::Build(f));
            },
        };
        let violations = rec.validate();
        if violations.len() > 0 {
            return Err(ParamError::Validation(violations));
        }
        Ok(rec)
    }

    /// Builds the record for an update request from the credential and the
    /// command-line arguments alone.
    pub fn parse_update(api_key: &str, args: &ArgSource) -> (r: Result<CheckParams, ParamError>)
        ensures
            ({
                let perrs = check_parse_errors(*args);
                let eff_url = text_or(*args, "url"@, None);
                let eff_token = token_or(*args, None);
                let eff_period = u32_or(*args, "period"@, None);
                if perrs.len() > 0 {
                    r matches Err(ParamError::Parse(es)) && failures_match(es@, perrs)
                } else if args.lookup("disabled_locations"@) is Some {
                    r matches Err(ParamError::Unsupported(f)) && f@ == "disabled_locations"@
                } else if args.lookup("custom_headers"@) is Some {
                    r matches Err(ParamError::Unsupported(f)) && f@ == "custom_headers"@
                } else if eff_token is None || eff_token->Some_0.len() == 0 {
                    r matches Err(ParamError::Build(f)) && f@ == "token"@
                } else if check_validation_errors(eff_url, eff_period).len() > 0 {
                    r matches Err(ParamError::Validation(vs)) && violations_match(
                        vs@,
                        check_validation_errors(eff_url, eff_period),
                    )
                } else {
                    r matches Ok(p) && p.api_key@ == api_key@ && p.token@ == eff_token->Some_0
                        && opt_text(p.url) == eff_url && p.period == eff_period && opt_text(
                        p.apdex_t,
                    ) == decimal_or(*args, "apdex_t"@, None) && p.enabled == bool_or(
                        *args,
                        "enabled"@,
                        None,
                    ) && p.published == bool_or(*args, "published"@, None) && opt_text(
                        p.string_match,
                    ) == args.lookup("string_match"@) && opt_text(p.alias) == args.lookup("alias"@)
                        && opt_text(p.mute_until) == args.lookup("mute_until"@) && opt_text(
                        p.http_verb,
                    ) == args.lookup("http_verb"@) && opt_text(p.http_body) == args.lookup(
                        "http_body"@,
                    ) && p.last_check_at is None && p.disabled_locations is None && p.custom_headers
                        is None
                }
            }),
    {
        let mut b = CheckParamsBuilder::for_update();
        b.api_key(api_key.to_owned());
        CheckParams::parse(b, args)
    }
}

/// String values as JSON values.
pub open spec fn strs_json(ts: Seq<Seq<char>>) -> Seq<JsonSpec> {
    Seq::new(
        ts.len(),
        |i: int|
            if 0 <= i < ts.len() {
                JsonSpec::Str(ts[i])
            } else {
                JsonSpec::Null
            },
    )
}

/// Key/text pairs as JSON object members.
pub open spec fn entries_json(es: Seq<(Seq<char>, Seq<char>)>) -> Seq<(Seq<char>, JsonSpec)> {
    Seq::new(
        es.len(),
        |i: int|
            if 0 <= i < es.len() {
                (es[i].0, JsonSpec::Str(es[i].1))
            } else {
                (Seq::<char>::empty(), JsonSpec::Null)
            },
    )
}

impl CheckParams {
    /// The leading JSON-body members: the credential always, under its wire
    /// name `api-key`; the token when not empty; then URL, period and apdex
    /// threshold when supplied.
    pub open spec fn body_model_head(self) -> Seq<(Seq<char>, JsonSpec)> {
        seq![("api-key"@, JsonSpec::Str(self.api_key@))] + (if self.token@.len() > 0 {
            seq![("token"@, JsonSpec::Str(self.token@))]
        } else {
            Seq::empty()
        }) + (match self.url {
            Some(u) => seq![("url"@, JsonSpec::Str(u@))],
            None => Seq::empty(),
        }) + (match self.period {
            Some(n) => seq![("period"@, JsonSpec::Num(nat_to_digits(n as nat)))],
            None => Seq::empty(),
        }) + (match self.apdex_t {
            Some(a) => seq![("apdex_t"@, JsonSpec::Num(a@))],
            None => Seq::empty(),
        })
    }

    /// The middle JSON-body members, each present only when supplied.
    pub open spec fn body_model_mid(self) -> Seq<(Seq<char>, JsonSpec)> {
        (match self.string_match {
            Some(t) => seq![("string_match"@, JsonSpec::Str(t@))],
            None => Seq::empty(),
        }) + (match self.enabled {
            Some(b) => seq![("enabled"@, JsonSpec::Bool(b))],
            None => Seq::empty(),
        }) + (match self.published {
            Some(b) => seq![("published"@, JsonSpec::Bool(b))],
            None => Seq::empty(),
        }) + (match self.alias {
            Some(t) => seq![("alias"@, JsonSpec::Str(t@))],
            None => Seq::empty(),
        }) + (match self.last_check_at {
            Some(t) => seq![("last_check_at"@, JsonSpec::Str(t@))],
            None => Seq::empty(),
        })
    }

    /// The trailing JSON-body members, each present only when supplied.
    pub open spec fn body_model_tail(self) -> Seq<(Seq<char>, JsonSpec)> {
        (match self.mute_until {
            Some(t) => seq![("mute_until"@, JsonSpec::Str(t@))],
            None => Seq::empty(),
        }) + (match self.http_verb {
            Some(t) => seq![("http_verb"@, JsonSpec::Str(t@))],
            None => Seq::empty(),
        }) + (match self.http_body {
            Some(t) => seq![("http_body"@, JsonSpec::Str(t@))],
            None => Seq::empty(),
        }) + (match self.disabled_locations {
            Some(v) => seq![("disabled_locations"@, JsonSpec::Arr(strs_json(texts_model(v@))))],
            None => Seq::empty(),
        }) + (match self.custom_headers {
            Some(v) => seq![("custom_headers"@, JsonSpec::Obj(entries_json(pairs_model(v@))))],
            None => Seq::empty(),
        })
    }

    /// The JSON body for this record: the credential always, under its wire
    /// name `api-key`; the token when not empty; then each supplied field
    /// under its own name.  An absent field is omitted entirely — never
    /// written as null or as an empty value.
    pub open spec fn body_model(self) -> Seq<(Seq<char>, JsonSpec)> {
        self.body_model_head() + self.body_model_mid() + self.body_model_tail()
    }

    #[verifier::rlimit(100)]
    #[verifier::spinoff_prover]
    fn push_body_head(&self, fields: &mut Vec<(String, Json)>)
        ensures
            obj_model(final(fields)@) == obj_model(old(fields)@) + self.body_model_head(),
    {
        let ghost base = obj_model(old(fields)@);
        let ghost mut gm: Seq<(Seq<char>, JsonSpec)> = Seq::empty();
        fields.push(("api-key".to_owned(), Json::Str(self.api_key.clone())));
        proof {
            gm = seq![("api-key"@, JsonSpec::Str(self.api_key@))];
            assert(obj_model(fields@) =~= base + gm);
        }
        if !self.token.as_str().is_empty() {
            fields.push(("token".to_owned(), Json::Str(self.token.clone())));
            proof {
                gm = gm + seq![("token"@, JsonSpec::Str(self.token@))];
                assert(obj_model(fields@) =~= base + gm);
            }
        }
        match &self.url {
            Some(u) => {
                fields.push(("url".to_owned(), Json::Str(u.clone())));
                proof {
                    gm = gm + seq![("url"@, JsonSpec::Str(u@))];
                    assert(obj_model(fields@) =~= base + gm);
                }
            },
            None => {},
        }
        match &self.period {
            Some(n) => {
                fields.push(("period".to_owned(), Json::Num(u32_to_string(*n))));
                proof {
                    gm = gm + seq![("period"@, JsonSpec::Num(nat_to_digits(*n as nat)))];
                    assert(obj_model(fields@) =~= base + gm);
                }
            },
            None => {},
        }
        match &self.apdex_t {
            Some(a) => {
                fields.push(("apdex_t".to_owned(), Json::Num(a.clone())));
                proof {
                    gm = gm + seq![("apdex_t"@, JsonSpec::Num(a@))];
                    assert(obj_model(fields@) =~= base + gm);
                }
            },
            None => {},
        }
        proof {
            assert(gm =~= self.body_model_head());
        }
    }

    #[verifier::rlimit(100)]
    #[verifier::spinoff_prover]
    fn push_body_mid(&self, fields: &mut Vec<(String, Json)>)
        ensures
            obj_model(final(fields)@) == obj_model(old(fields)@) + self.body_model_mid(),
    {
        let ghost base = obj_model(old(fields)@);
        let ghost mut gm: Seq<(Seq<char>, JsonSpec)> = Seq::empty();
        proof {
            assert(obj_model(fields@) =~= base + gm);
        }
        match &self.string_match {
            Some(t) => {
                fields.push(("string_match".to_owned(), Json::Str(t.clone())));
                proof {
                    gm = gm + seq![("string_match"@, JsonSpec::Str(t@))];
                    assert(obj_model(fields@) =~= base + gm);
                }
            },
            None => {},
        }
        match &self.enabled {
            Some(b) => {
                fields.push(("enabled".to_owned(), Json::Bool(*b)));
                proof {
                    gm = gm + seq![("enabled"@, JsonSpec::Bool(*b))];
                    assert(obj_model(fields@) =~= base + gm);
                }
            },
            None => {},
        }
        match &self.published {
            Some(b) => {
                fields.push(("published".to_owned(), Json::Bool(*b)));
                proof {
                    gm = gm + seq![("published"@, JsonSpec::Bool(*b))];
                    assert(obj_model(fields@) =~= base + gm);
                }
            },
            None => {},
        }
        match &self.alias {
            Some(t) => {
                fields.push(("alias".to_owned(), Json::Str(t.clone())));
                proof {
                    gm = gm + seq![("alias"@, JsonSpec::Str(t@))];
                    assert(obj_model(fields@) =~= base + gm);
                }
            },
            None => {},
        }
        match &self.last_check_at {
            Some(t) => {
                fields.push(("last_check_at".to_owned(), Json::Str(t.clone())));
                proof {
                    gm = gm + seq![("last_check_at"@, JsonSpec::Str(t@))];
                    assert(obj_model(fields@) =~= base + gm);
                }
            },
            None => {},
        }
        proof {
            assert(gm =~= self.body_model_mid());
        }
    }

    #[verifier::rlimit(100)]
    #[verifier::spinoff_prover]
    fn push_body_tail(&self, fields: &mut Vec<(String, Json)>)
        ensures
            obj_model(final(fields)@) == obj_model(old(fields)@) + self.body_model_tail(),
    {
        let ghost base = obj_model(old(fields)@);
        let ghost mut gm: Seq<(Seq<char>, JsonSpec)> = Seq::empty();
        proof {
            assert(obj_model(fields@) =~= base + gm);
        }
        match &self.mute_until {
            Some(t) => {
                fields.push(("mute_until".to_owned(), Json::Str(t.clone())));
                proof {
                    gm = gm + seq![("mute_until"@, JsonSpec::Str(t@))];
                    assert(obj_model(fields@) =~= base + gm);
                }
            },
            None => {},
        }
        match &self.http_verb {
            Some(t) => {
                fields.push(("http_verb".to_owned(), Json::Str(t.clone())));
                proof {
                    gm = gm + seq![("http_verb"@, JsonSpec::Str(t@))];
                    assert(obj_model(fields@) =~= base + gm);
                }
            },
            None => {},
        }
        match &self.http_body {
            Some(t) => {
                fields.push(("http_body".to_owned(), Json::Str(t.clone())));
                proof {
                    gm = gm + seq![("http_body"@, JsonSpec::Str(t@))];
                    assert(obj_model(fields@) =~= base + gm);
                }
            },
            None => {},
        }
        match &self.disabled_locations {
            Some(v) => {
                let mut items: Vec<Json> = Vec::new();
                let n = v.len();
                let mut k: usize = 0;
                while k < n
                    invariant
                        0 <= k as int <= n as int,
                        n as nat == v@.len(),
                        items@.len() == k as nat,
                        forall|j: int|
                            0 <= j < k as int ==> (#[trigger] items@[j])@ == JsonSpec::Str(
                                v@[j]@,
                            ),
                    decreases n as int - k as int,
                {
                    items.push(Json::Str(v[k].clone()));
                    k = k + 1;
                }
                proof {
                    assert(arr_model(items@) =~= strs_json(texts_model(v@)));
                }
                fields.push(("disabled_locations".to_owned(), Json::Arr(items)));
                proof {
                    gm = gm + seq![
                        ("disabled_locations"@, JsonSpec::Arr(strs_json(texts_model(v@)))),
                    ];
                    assert(obj_model(fields@) =~= base + gm);
                }
            },
            None => {},
        }
        match &self.custom_headers {
            Some(v) => {
                let mut entries: Vec<(String, Json)> = Vec::new();
                let n = v.len();
                let mut k: usize = 0;
                while k < n
                    invariant
                        0 <= k as int <= n as int,
                        n as nat == v@.len(),
                        entries@.len() == k as nat,
                        forall|j: int|
                            0 <= j < k as int ==> (#[trigger] entries@[j]).0@ == v@[j].0@
                                && entries@[j].1@ == JsonSpec::Str(v@[j].1@),
                    decreases n as int - k as int,
                {
                    entries.push((v[k].0.clone(), Json::Str(v[k].1.clone())));
                    k = k + 1;
                }
                proof {
                    assert(obj_model(entries@) =~= entries_json(pairs_model(v@)));
                }
                fields.push(("custom_headers".to_owned(), Json::Obj(entries)));
                proof {
                    gm = gm + seq![
                        ("custom_headers"@, JsonSpec::Obj(entries_json(pairs_model(v@)))),
                    ];
                    assert(obj_model(fields@) =~= base + gm);
                }
            },
            None => {},
        }
        proof {
            assert(gm =~= self.body_model_tail());
        }
    }

    /// Serializes the record as its JSON body.
    pub fn to_body(&self) -> (r: Json)
        ensures
            r@ == JsonSpec::Obj(self.body_model()),
    {
        let mut fields: Vec<(String, Json)> = Vec::new();
        proof {
            assert(obj_model(fields@) =~= Seq::<(Seq<char>, JsonSpec)>::empty());
        }
        self.push_body_head(&mut fields);
        self.push_body_mid(&mut fields);
        self.push_body_tail(&mut fields);
        proof {
            assert(obj_model(fields@) =~= self.body_model());
        }
        Json::Obj(fields)
    }

    /// The JSON body as wire text.
    pub fn body_string(&self) -> (r: String)
        ensures
            r@ == crate::json::render_spec(JsonSpec::Obj(self.body_model())),
    {
        let body = self.to_body();
        crate::json::render_json(&body)
    }
}

/// What the leading body members hold under a key.
pub open spec fn spec_head_lookup(p: CheckParams, key: Seq<char>) -> Option<JsonSpec> {
    if key == "api-key"@ {
        Some(JsonSpec::Str(p.api_key@))
    } else if key == "token"@ {
        if p.token@.len() > 0 {
            Some(JsonSpec::Str(p.token@))
        } else {
            None
        }
    } else if key == "url"@ {
        match p.url {
            Some(u) => Some(JsonSpec::Str(u@)),
            None => None,
        }
    } else if key == "period"@ {
        match p.period {
            Some(n) => Some(JsonSpec::Num(nat_to_digits(n as nat))),
            None => None,
        }
    } else if key == "apdex_t"@ {
        match p.apdex_t {
            Some(a) => Some(JsonSpec::Num(a@)),
            None => None,
        }
    } else {
        None
    }
}

/// What the middle body members hold under a key.
pub open spec fn spec_mid_lookup(p: CheckParams, key: Seq<char>) -> Option<JsonSpec> {
    if key == "string_match"@ {
        match p.string_match {
            Some(t) => Some(JsonSpec::Str(t@)),
            None => None,
        }
    } else if key == "enabled"@ {
        match p.enabled {
            Some(b) => Some(JsonSpec::Bool(b)),
            None => None,
        }
    } else if key == "published"@ {
        match p.published {
            Some(b) => Some(JsonSpec::Bool(b)),
            None => None,
        }
    } else if key == "alias"@ {
        match p.alias {
            Some(t) => Some(JsonSpec::Str(t@)),
            None => None,
        }
    } else if key == "last_check_at"@ {
        match p.last_check_at {
            Some(t) => Some(JsonSpec::Str(t@)),
            None => None,
        }
    } else {
        None
    }
}

/// What the trailing body members hold under a key.
pub open spec fn spec_tail_lookup(p: CheckParams, key: Seq<char>) -> Option<JsonSpec> {
    if key == "mute_until"@ {
        match p.mute_until {
            Some(t) => Some(JsonSpec::Str(t@)),
            None => None,
        }
    } else if key == "http_verb"@ {
        match p.http_verb {
            Some(t) => Some(JsonSpec::Str(t@)),
            None => None,
        }
    } else if key == "http_body"@ {
        match p.http_body {
            Some(t) => Some(JsonSpec::Str(t@)),
            None => None,
        }
    } else if key == "disabled_locations"@ {
        match p.disabled_locations {
            Some(v) => Some(JsonSpec::Arr(strs_json(texts_model(v@)))),
            None => None,
        }
    } else if key == "custom_headers"@ {
        match p.custom_headers {
            Some(v) => Some(JsonSpec::Obj(entries_json(pairs_model(v@)))),
            None => None,
        }
    } else {
        None
    }
}

/// What the JSON body of a record holds under each wire name: the
/// credential under `api-key` always; the token under `token` only when not
/// empty; each optional field under its own name only when supplied; and
/// nothing under any other key.  The members are searched front to back.
pub open spec fn spec_body_lookup(p: CheckParams, key: Seq<char>) -> Option<JsonSpec> {
    match spec_head_lookup(p, key) {
        Some(v) => Some(v),
        None => match spec_mid_lookup(p, key) {
            Some(v) => Some(v),
            None => spec_tail_lookup(p, key),
        },
    }
}

/// The wire names this module writes are pairwise distinct: their lengths,
/// and one character where lengths agree.
proof fn lemma_wire_names_distinct()
    ensures
        "api-key"@.len() == 7,
        "token"@.len() == 5,
        "url"@.len() == 3,
        "period"@.len() == 6,
        "apdex_t"@.len() == 7,
        "string_match"@.len() == 12,
        "enabled"@.len() == 7,
        "published"@.len() == 9,
        "alias"@.len() == 5,
        "last_check_at"@.len() == 13,
        "mute_until"@.len() == 10,
        "http_verb"@.len() == 9,
        "http_body"@.len() == 9,
        "disabled_locations"@.len() == 18,
        "custom_headers"@.len() == 14,
        "api-key"@[0] == 'a',
        "apdex_t"@[0] == 'a',
        "enabled"@[0] == 'e',
        "api-key"@[2] == 'i',
        "apdex_t"@[2] == 'd',
        "token"@[0] == 't',
        "alias"@[0] == 'a',
        "published"@[0] == 'p',
        "http_verb"@[0] == 'h',
        "http_body"@[0] == 'h',
        "http_verb"@[5] == 'v',
        "http_body"@[5] == 'b',
{
    reveal_strlit("api-key");
    reveal_strlit("token");
    reveal_strlit("url");
    reveal_strlit("period");
    reveal_strlit("apdex_t");
    reveal_strlit("string_match");
    reveal_strlit("enabled");
    reveal_strlit("published");
    reveal_strlit("alias");
    reveal_strlit("last_check_at");
    reveal_strlit("mute_until");
    reveal_strlit("http_verb");
    reveal_strlit("http_body");
    reveal_strlit("disabled_locations");
    reveal_strlit("custom_headers");
}

proof fn lemma_head_lookup_model(p: CheckParams, key: Seq<char>)
    ensures
        obj_lookup(p.body_model_head(), key) == spec_head_lookup(p, key),
{
    lemma_wire_names_distinct();
    let h1 = seq![("api-key"@, JsonSpec::Str(p.api_key@))];
    let h2: Seq<(Seq<char>, JsonSpec)> = if p.token@.len() > 0 {
        seq![("token"@, JsonSpec::Str(p.token@))]
    } else {
        Seq::empty()
    };
    let h3: Seq<(Seq<char>, JsonSpec)> = match p.url {
        Some(u) => seq![("url"@, JsonSpec::Str(u@))],
        None => Seq::empty(),
    };
    let h4: Seq<(Seq<char>, JsonSpec)> = match p.period {
        Some(n) => seq![("period"@, JsonSpec::Num(nat_to_digits(n as nat)))],
        None => Seq::empty(),
    };
    let h5: Seq<(Seq<char>, JsonSpec)> = match p.apdex_t {
        Some(a) => seq![("apdex_t"@, JsonSpec::Num(a@))],
        None => Seq::empty(),
    };
    assert(p.body_model_head() == h1 + h2 + h3 + h4 + h5);
    assert(obj_lookup(Seq::<(Seq<char>, JsonSpec)>::empty(), key) is None);
    crate::json::lemma_obj_lookup_append(h1 + h2 + h3 + h4, h5, key);
    crate::json::lemma_obj_lookup_append(h1 + h2 + h3, h4, key);
    crate::json::lemma_obj_lookup_append(h1 + h2, h3, key);
    crate::json::lemma_obj_lookup_append(h1, h2, key);
    crate::json::lemma_obj_lookup_singleton(("api-key"@, JsonSpec::Str(p.api_key@)), key);
    if p.token@.len() > 0 {
        crate::json::lemma_obj_lookup_singleton(("token"@, JsonSpec::Str(p.token@)), key);
    }
    match p.url {
        Some(u) => crate::json::lemma_obj_lookup_singleton(("url"@, JsonSpec::Str(u@)), key),
        None => (),
    }
    match p.period {
        Some(n) => {
            crate::json::lemma_obj_lookup_singleton(
                ("period"@, JsonSpec::Num(nat_to_digits(n as nat))),
                key,
            );
        },
        None => (),
    }
    match p.apdex_t {
        Some(a) => crate::json::lemma_obj_lookup_singleton(("apdex_t"@, JsonSpec::Num(a@)), key),
        None => (),
    }
}

proof fn lemma_mid_lookup_model(p: CheckParams, key: Seq<char>)
    ensures
        obj_lookup(p.body_model_mid(), key) == spec_mid_lookup(p, key),
{
    lemma_wire_names_distinct();
    let m1: Seq<(Seq<char>, JsonSpec)> = match p.string_match {
        Some(t) => seq![("string_match"@, JsonSpec::Str(t@))],
        None => Seq::empty(),
    };
    let m2: Seq<(Seq<char>, JsonSpec)> = match p.enabled {
        Some(b) => seq![("enabled"@, JsonSpec::Bool(b))],
        None => Seq::empty(),
    };
    let m3: Seq<(Seq<char>, JsonSpec)> = match p.published {
        Some(b) => seq![("published"@, JsonSpec::Bool(b))],
        None => Seq::empty(),
    };
    let m4: Seq<(Seq<char>, JsonSpec)> = match p.alias {
        Some(t) => seq![("alias"@, JsonSpec::Str(t@))],
        None => Seq::empty(),
    };
    let m5: Seq<(Seq<char>, JsonSpec)> = match p.last_check_at {
        Some(t) => seq![("last_check_at"@, JsonSpec::Str(t@))],
        None => Seq::empty(),
    };
    assert(p.body_model_mid() == m1 + m2 + m3 + m4 + m5);
    assert(obj_lookup(Seq::<(Seq<char>, JsonSpec)>::empty(), key) is None);
    crate::json::lemma_obj_lookup_append(m1 + m2 + m3 + m4, m5, key);
    crate::json::lemma_obj_lookup_append(m1 + m2 + m3, m4, key);
    crate::json::lemma_obj_lookup_append(m1 + m2, m3, key);
    crate::json::lemma_obj_lookup_append(m1, m2, key);
    match p.string_match {
        Some(t) => crate::json::lemma_obj_lookup_singleton(
            ("string_match"@, JsonSpec::Str(t@)),
            key,
        ),
        None => (),
    }
    match p.enabled {
        Some(b) => crate::json::lemma_obj_lookup_singleton(("enabled"@, JsonSpec::Bool(b)), key),
        None => (),
    }
    match p.published {
        Some(b) => crate::json::lemma_obj_lookup_singleton(("published"@, JsonSpec::Bool(b)), key),
        None => (),
    }
    match p.alias {
        Some(t) => crate::json::lemma_obj_lookup_singleton(("alias"@, JsonSpec::Str(t@)), key),
        None => (),
    }
    match p.last_check_at {
        Some(t) => crate::json::lemma_obj_lookup_singleton(
            ("last_check_at"@, JsonSpec::Str(t@)),
            key,
        ),
        None => (),
    }
}

proof fn lemma_tail_lookup_model(p: CheckParams, key: Seq<char>)
    ensures
        obj_lookup(p.body_model_tail(), key) == spec_tail_lookup(p, key),
{
    lemma_wire_names_distinct();
    let t1: Seq<(Seq<char>, JsonSpec)> = match p.mute_until {
        Some(t) => seq![("mute_until"@, JsonSpec::Str(t@))],
        None => Seq::empty(),
    };
    let t2: Seq<(Seq<char>, JsonSpec)> = match p.http_verb {
        Some(t) => seq![("http_verb"@, JsonSpec::Str(t@))],
        None => Seq::empty(),
    };
    let t3: Seq<(Seq<char>, JsonSpec)> = match p.http_body {
        Some(t) => seq![("http_body"@, JsonSpec::Str(t@))],
        None => Seq::empty(),
    };
    let t4: Seq<(Seq<char>, JsonSpec)> = match p.disabled_locations {
        Some(v) => seq![("disabled_locations"@, JsonSpec::Arr(strs_json(texts_model(v@))))],
        None => Seq::empty(),
    };
    let t5: Seq<(Seq<char>, JsonSpec)> = match p.custom_headers {
        Some(v) => seq![("custom_headers"@, JsonSpec::Obj(entries_json(pairs_model(v@))))],
        None => Seq::empty(),
    };
    assert(p.body_model_tail() == t1 + t2 + t3 + t4 + t5);
    assert(obj_lookup(Seq::<(Seq<char>, JsonSpec)>::empty(), key) is None);
    crate::json::lemma_obj_lookup_append(t1 + t2 + t3 + t4, t5, key);
    crate::json::lemma_obj_lookup_append(t1 + t2 + t3, t4, key);
    crate::json::lemma_obj_lookup_append(t1 + t2, t3, key);
    crate::json::lemma_obj_lookup_append(t1, t2, key);
    match p.mute_until {
        Some(t) => crate::json::lemma_obj_lookup_singleton(
            ("mute_until"@, JsonSpec::Str(t@)),
            key,
        ),
        None => (),
    }
    match p.http_verb {
        Some(t) => crate::json::lemma_obj_lookup_singleton(("http_verb"@, JsonSpec::Str(t@)), key),
        None => (),
    }
    match p.http_body {
        Some(t) => crate::json::lemma_obj_lookup_singleton(("http_body"@, JsonSpec::Str(t@)), key),
        None => (),
    }
    match p.disabled_locations {
        Some(v) => crate::json::lemma_obj_lookup_singleton(
            ("disabled_locations"@, JsonSpec::Arr(strs_json(texts_model(v@)))),
            key,
        ),
        None => (),
    }
    match p.custom_headers {
        Some(v) => crate::json::lemma_obj_lookup_singleton(
            ("custom_headers"@, JsonSpec::Obj(entries_json(pairs_model(v@)))),
            key,
        ),
        None => (),
    }
}

/// Law: the JSON body holds, under every key, exactly what
/// [`spec_body_lookup`] says — each absent field is missing from the wire
/// entirely, and each present one stands under its own name, the credential
/// under `api-key`.
pub proof fn lemma_body_lookup(p: CheckParams, key: Seq<char>)
    ensures
        obj_lookup(p.body_model(), key) == spec_body_lookup(p, key),
{
    lemma_head_lookup_model(p, key);
    lemma_mid_lookup_model(p, key);
    lemma_tail_lookup_model(p, key);
    crate::json::lemma_obj_lookup_append(
        p.body_model_head() + p.body_model_mid(),
        p.body_model_tail(),
        key,
    );
    crate::json::lemma_obj_lookup_append(p.body_model_head(), p.body_model_mid(), key);
    assert(obj_lookup(p.body_model(), key) == obj_lookup(
        (p.body_model_head() + p.body_model_mid()) + p.body_model_tail(),
        key,
    ));
}

/// Law: the fields that are echoed on the wire — token, url, period,
/// enabled — read back from the JSON body as exactly the values the record
/// holds, and a field absent from the record is absent from the body.
pub proof fn lemma_body_echoes_fields(p: CheckParams)
    ensures
        p.token@.len() > 0 ==> spec_str_field(p.body_model(), "token"@) == Some(Some(p.token@)),
        p.token@.len() == 0 ==> obj_lookup(p.body_model(), "token"@) is None,
        spec_str_field(p.body_model(), "url"@) == Some(opt_text(p.url)),
        spec_u32_field(p.body_model(), "period"@) == Some(p.period),
        spec_bool_field(p.body_model(), "enabled"@) == Some(p.enabled),
{
    lemma_wire_names_distinct();
    lemma_body_lookup(p, "token"@);
    lemma_body_lookup(p, "url"@);
    lemma_body_lookup(p, "period"@);
    lemma_body_lookup(p, "enabled"@);
    match p.period {
        Some(n) => crate::numbers::lemma_u32_numeral_roundtrip(n),
        None => (),
    }
}

/// Law: a period that parses as a number but misses the enumerated set is a
/// validation failure naming `period`, while the parse stage records nothing
/// for that field — the two failure sources stay distinct.
pub proof fn lemma_period_enum_is_validation_not_parse(args: ArgSource, url: Option<Seq<char>>)
    requires
        args.lookup("period"@) matches Some(raw) && spec_parse_u32(raw) matches Some(v)
            && !valid_period(v),
    ensures
        u32_failure(args, "period"@) == Seq::<(Seq<char>, Seq<char>)>::empty(),
        check_validation_errors(url, spec_parse_u32(args.lookup("period"@)->Some_0)).len() >= 1,
        check_validation_errors(url, spec_parse_u32(args.lookup("period"@)->Some_0)).last() == (
            "period"@,
            "is not one of the accepted polling periods"@,
        ),
{
    let period = spec_parse_u32(args.lookup("period"@)->Some_0);
    let es = check_validation_errors(url, period);
    let upart: Seq<(Seq<char>, Seq<char>)> = match url {
        Some(u) => if !is_url(u) {
            seq![("url"@, "is not a well-formed URL"@)]
        } else {
            Seq::empty()
        },
        None => Seq::empty(),
    };
    let ppart = seq![("period"@, "is not one of the accepted polling periods"@)];
    assert(es == upart + ppart);
    assert(es.last() == ppart[0]);
}

} // verus!
