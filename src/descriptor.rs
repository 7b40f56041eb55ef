use vstd::prelude::*;

use crate::error::Error;
use crate::json::{find_member, json_document, lemma_absent_member, lemma_single_member, member, parse_json, JsonValue};

verus! {

/// Options for acting as another service account.
#[derive(Debug)]
pub struct ServiceAccountImpersonationInfo {
    pub token_lifetime_seconds: i32,
}

/// A local program that prints the subject token.
#[derive(Debug)]
pub struct ExecutableConfig {
    pub command: String,
    pub timeout_millis: Option<i32>,
    pub output_file: String,
}

/// How to pick the subject token out of a structured response.
#[derive(Debug)]
pub struct Format {
    /// The content type (the member `type` of the document).
    pub tp: String,
    pub subject_token_field_name: String,
}

/// Where an external account finds its subject token: a file, a URL, a program,
/// or a cloud metadata service, told apart by which members are present.
#[derive(Debug)]
pub struct CredentialSource {
    pub file: Option<String>,
    pub url: Option<String>,
    pub headers: Option<Vec<(String, String)>>,
    pub executable: Option<ExecutableConfig>,
    pub environment_id: Option<String>,
    pub region_url: Option<String>,
    pub regional_cred_verification_url: Option<String>,
    pub cred_verification_url: Option<String>,
    pub imdsv2_session_token_url: Option<String>,
    pub format: Option<Format>,
}

/// The sub-configuration that a credential source holds.
#[derive(PartialEq, Eq, Structural, Clone, Copy, Debug)]
pub enum SourceKind {
    File,
    Url,
    Executable,
    Metadata,
}

/// A credential document: the discriminant `tp` (the member `type`) and the
/// members of every credential kind, each absent unless the document has it.
#[derive(Debug)]
pub struct CredentialsFile {
    pub tp: String,
    // service account
    pub client_email: Option<String>,
    pub private_key_id: Option<String>,
    pub private_key: Option<String>,
    pub auth_uri: Option<String>,
    pub token_uri: Option<String>,
    pub project_id: Option<String>,
    // user credential
    pub client_secret: Option<String>,
    pub client_id: Option<String>,
    pub refresh_token: Option<String>,
    // external account
    pub audience: Option<String>,
    pub subject_token_type: Option<String>,
    /// The member `token_url`.
    pub token_url_external: Option<String>,
    pub token_info_url: Option<String>,
    pub service_account_impersonation_url: Option<String>,
    pub service_account_impersonation: Option<ServiceAccountImpersonationInfo>,
    pub delegates: Option<Vec<String>>,
    pub credential_source: Option<CredentialSource>,
    pub quota_project_id: Option<String>,
    pub workforce_pool_user_project: Option<String>,
}

// Reading one member. An optional member that is absent or null reads as
// `None`; a member of the wrong type makes the read fail (the outer `None`).

/// A required string member.
pub open spec fn req_string(v: Option<JsonValue>) -> Option<String> {
    match v {
        Some(JsonValue::Str(s)) => Some(s),
        _ => None,
    }
}

/// An optional string member.
pub open spec fn opt_string(v: Option<JsonValue>) -> Option<Option<String>> {
    match v {
        None => Some(None),
        Some(JsonValue::Null) => Some(None),
        Some(JsonValue::Str(s)) => Some(Some(s)),
        _ => None,
    }
}

/// A number that is an integer within the range of `i32`.
pub open spec fn int32_of(v: JsonValue) -> Option<i32> {
    match v {
        JsonValue::Number(Some(n)) => if i32::MIN <= n <= i32::MAX {
            Some(n as i32)
        } else {
            None
        },
        _ => None,
    }
}

/// A required `i32` member.
pub open spec fn req_i32(v: Option<JsonValue>) -> Option<i32> {
    match v {
        Some(x) => int32_of(x),
        None => None,
    }
}

/// An optional `i32` member.
pub open spec fn opt_i32(v: Option<JsonValue>) -> Option<Option<i32>> {
    match v {
        None => Some(None),
        Some(JsonValue::Null) => Some(None),
        Some(x) => match int32_of(x) {
            Some(n) => Some(Some(n)),
            None => None,
        },
    }
}

/// Every element is a string.
pub open spec fn all_strings(a: Seq<JsonValue>) -> bool {
    forall|i: int| 0 <= i < a.len() ==> (#[trigger] a[i]) is Str
}

/// The strings of an array of strings.
pub open spec fn strings_view(a: Seq<JsonValue>) -> Seq<String> {
    Seq::new(a.len(), |i: int| a[i]->Str_0)
}

/// An optional array of strings.
pub open spec fn opt_strings(v: Option<JsonValue>) -> Option<Option<Seq<String>>> {
    match v {
        None => Some(None),
        Some(JsonValue::Null) => Some(None),
        Some(JsonValue::Array(a)) => if all_strings(a@) {
            Some(Some(strings_view(a@)))
        } else {
            None
        },
        _ => None,
    }
}

/// Every member's value is a string.
pub open spec fn all_string_values(g: Seq<(String, JsonValue)>) -> bool {
    forall|i: int| 0 <= i < g.len() ==> (#[trigger] g[i]).1 is Str
}

/// The key and value of each member of an object whose values are strings.
pub open spec fn pairs_view(g: Seq<(String, JsonValue)>) -> Seq<(String, String)> {
    Seq::new(g.len(), |i: int| (g[i].0, g[i].1->Str_0))
}

/// An optional object of string values.
pub open spec fn opt_string_map(v: Option<JsonValue>) -> Option<Option<Seq<(String, String)>>> {
    match v {
        None => Some(None),
        Some(JsonValue::Null) => Some(None),
        Some(JsonValue::Object(g)) => if all_string_values(g@) {
            Some(Some(pairs_view(g@)))
        } else {
            None
        },
        _ => None,
    }
}

/// What an optional vector holds.
pub open spec fn opt_view<T>(v: Option<Vec<T>>) -> Option<Seq<T>> {
    match v {
        Some(x) => Some(x@),
        None => None,
    }
}

/// The impersonation options that an object's members give.
pub open spec fn impersonation_of(g: Seq<(String, JsonValue)>) -> Option<
    ServiceAccountImpersonationInfo,
> {
    match req_i32(member(g, "token_lifetime_seconds"@)) {
        Some(t) => Some(ServiceAccountImpersonationInfo { token_lifetime_seconds: t }),
        None => None,
    }
}

/// The executable configuration that an object's members give.
pub open spec fn executable_of(g: Seq<(String, JsonValue)>) -> Option<ExecutableConfig> {
    let command = req_string(member(g, "command"@));
    let timeout = opt_i32(member(g, "timeout_millis"@));
    let output = req_string(member(g, "output_file"@));
    if command is Some && timeout is Some && output is Some {
        Some(
            ExecutableConfig {
                command: command->Some_0,
                timeout_millis: timeout->Some_0,
                output_file: output->Some_0,
            },
        )
    } else {
        None
    }
}

/// The response format that an object's members give.
pub open spec fn format_of(g: Seq<(String, JsonValue)>) -> Option<Format> {
    let tp = req_string(member(g, "type"@));
    let name = req_string(member(g, "subject_token_field_name"@));
    if tp is Some && name is Some {
        Some(Format { tp: tp->Some_0, subject_token_field_name: name->Some_0 })
    } else {
        None
    }
}

/// An optional impersonation object.
pub open spec fn opt_impersonation(v: Option<JsonValue>) -> Option<
    Option<ServiceAccountImpersonationInfo>,
> {
    match v {
        None => Some(None),
        Some(JsonValue::Null) => Some(None),
        Some(JsonValue::Object(g)) => match impersonation_of(g@) {
            Some(x) => Some(Some(x)),
            None => None,
        },
        _ => None,
    }
}

/// An optional executable object.
pub open spec fn opt_executable(v: Option<JsonValue>) -> Option<Option<ExecutableConfig>> {
    match v {
        None => Some(None),
        Some(JsonValue::Null) => Some(None),
        Some(JsonValue::Object(g)) => match executable_of(g@) {
            Some(x) => Some(Some(x)),
            None => None,
        },
        _ => None,
    }
}

/// An optional format object.
pub open spec fn opt_format(v: Option<JsonValue>) -> Option<Option<Format>> {
    match v {
        None => Some(None),
        Some(JsonValue::Null) => Some(None),
        Some(JsonValue::Object(g)) => match format_of(g@) {
            Some(x) => Some(Some(x)),
            None => None,
        },
        _ => None,
    }
}

/// `s` holds exactly what the credential-source object with members `g` says.
pub open spec fn source_fits(s: CredentialSource, g: Seq<(String, JsonValue)>) -> bool {
    &&& opt_string(member(g, "file"@)) == Some(s.file)
    &&& opt_string(member(g, "url"@)) == Some(s.url)
    &&& opt_string_map(member(g, "headers"@)) == Some(opt_view(s.headers))
    &&& opt_executable(member(g, "executable"@)) == Some(s.executable)
    &&& opt_string(member(g, "environment_id"@)) == Some(s.environment_id)
    &&& opt_string(member(g, "region_url"@)) == Some(s.region_url)
    &&& opt_string(member(g, "regional_cred_verification_url"@)) == Some(
        s.regional_cred_verification_url,
    )
    &&& opt_string(member(g, "cred_verification_url"@)) == Some(s.cred_verification_url)
    &&& opt_string(member(g, "imdsv2_session_token_url"@)) == Some(s.imdsv2_session_token_url)
    &&& opt_format(member(g, "format"@)) == Some(s.format)
}

/// Every member of a credential-source object that the library reads has the
/// right type.
pub open spec fn source_ok(g: Seq<(String, JsonValue)>) -> bool {
    &&& opt_string(member(g, "file"@)) is Some
    &&& opt_string(member(g, "url"@)) is Some
    &&& opt_string_map(member(g, "headers"@)) is Some
    &&& opt_executable(member(g, "executable"@)) is Some
    &&& opt_string(member(g, "environment_id"@)) is Some
    &&& opt_string(member(g, "region_url"@)) is Some
    &&& opt_string(member(g, "regional_cred_verification_url"@)) is Some
    &&& opt_string(member(g, "cred_verification_url"@)) is Some
    &&& opt_string(member(g, "imdsv2_session_token_url"@)) is Some
    &&& opt_format(member(g, "format"@)) is Some
}

/// `s` holds what the optional member `credential_source` says.
pub open spec fn source_member_fits(s: Option<CredentialSource>, v: Option<JsonValue>) -> bool {
    match v {
        None => s is None,
        Some(JsonValue::Null) => s is None,
        Some(JsonValue::Object(g)) => s matches Some(x) && source_fits(x, g@),
        _ => false,
    }
}

/// The optional member `credential_source` is absent, null or a well-typed object.
pub open spec fn source_member_ok(v: Option<JsonValue>) -> bool {
    match v {
        None => true,
        Some(JsonValue::Null) => true,
        Some(JsonValue::Object(g)) => source_ok(g@),
        _ => false,
    }
}

/// Every member of a credential document that the library reads has the right
/// type, and the discriminant `type` is present.
pub open spec fn document_ok(f: Seq<(String, JsonValue)>) -> bool {
    &&& req_string(member(f, "type"@)) is Some
    &&& opt_string(member(f, "client_email"@)) is Some
    &&& opt_string(member(f, "private_key_id"@)) is Some
    &&& opt_string(member(f, "private_key"@)) is Some
    &&& opt_string(member(f, "auth_uri"@)) is Some
    &&& opt_string(member(f, "token_uri"@)) is Some
    &&& opt_string(member(f, "project_id"@)) is Some
    &&& opt_string(member(f, "client_secret"@)) is Some
    &&& opt_string(member(f, "client_id"@)) is Some
    &&& opt_string(member(f, "refresh_token"@)) is Some
    &&& opt_string(member(f, "audience"@)) is Some
    &&& opt_string(member(f, "subject_token_type"@)) is Some
    &&& opt_string(member(f, "token_url"@)) is Some
    &&& opt_string(member(f, "token_info_url"@)) is Some
    &&& opt_string(member(f, "service_account_impersonation_url"@)) is Some
    &&& opt_impersonation(member(f, "service_account_impersonation"@)) is Some
    &&& opt_strings(member(f, "delegates"@)) is Some
    &&& source_member_ok(member(f, "credential_source"@))
    &&& opt_string(member(f, "quota_project_id"@)) is Some
    &&& opt_string(member(f, "workforce_pool_user_project"@)) is Some
}

/// `c` holds exactly what the document with members `f` says.
pub open spec fn fields_fit(c: CredentialsFile, f: Seq<(String, JsonValue)>) -> bool {
    &&& req_string(member(f, "type"@)) == Some(c.tp)
    &&& opt_string(member(f, "client_email"@)) == Some(c.client_email)
    &&& opt_string(member(f, "private_key_id"@)) == Some(c.private_key_id)
    &&& opt_string(member(f, "private_key"@)) == Some(c.private_key)
    &&& opt_string(member(f, "auth_uri"@)) == Some(c.auth_uri)
    &&& opt_string(member(f, "token_uri"@)) == Some(c.token_uri)
    &&& opt_string(member(f, "project_id"@)) == Some(c.project_id)
    &&& opt_string(member(f, "client_secret"@)) == Some(c.client_secret)
    &&& opt_string(member(f, "client_id"@)) == Some(c.client_id)
    &&& opt_string(member(f, "refresh_token"@)) == Some(c.refresh_token)
    &&& opt_string(member(f, "audience"@)) == Some(c.audience)
    &&& opt_string(member(f, "subject_token_type"@)) == Some(c.subject_token_type)
    &&& opt_string(member(f, "token_url"@)) == Some(c.token_url_external)
    &&& opt_string(member(f, "token_info_url"@)) == Some(c.token_info_url)
    &&& opt_string(member(f, "service_account_impersonation_url"@)) == Some(
        c.service_account_impersonation_url,
    )
    &&& opt_impersonation(member(f, "service_account_impersonation"@)) == Some(
        c.service_account_impersonation,
    )
    &&& opt_strings(member(f, "delegates"@)) == Some(opt_view(c.delegates))
    &&& source_member_fits(c.credential_source, member(f, "credential_source"@))
    &&& opt_string(member(f, "quota_project_id"@)) == Some(c.quota_project_id)
    &&& opt_string(member(f, "workforce_pool_user_project"@)) == Some(
        c.workforce_pool_user_project,
    )
}

/// The JSON value is a credential document.
pub open spec fn descriptor_ok(doc: JsonValue) -> bool {
    match doc {
        JsonValue::Object(f) => document_ok(f@),
        _ => false,
    }
}

/// `c` is the descriptor of the JSON value `doc`.
pub open spec fn describes(c: CredentialsFile, doc: JsonValue) -> bool {
    match doc {
        JsonValue::Object(f) => fields_fit(c, f@),
        _ => false,
    }
}


fn read_req_string(g: &Vec<(String, JsonValue)>, name: &str) -> (r: Option<String>)
    ensures
        r == req_string(member(g@, name@)),
{
    match find_member(g, name) {
        Some(JsonValue::Str(s)) => Some(s.clone()),
        _ => None,
    }
}

fn read_opt_string(g: &Vec<(String, JsonValue)>, name: &str) -> (r: Option<Option<String>>)
    ensures
        r == opt_string(member(g@, name@)),
{
    match find_member(g, name) {
        None => Some(None),
        Some(JsonValue::Null) => Some(None),
        Some(JsonValue::Str(s)) => Some(Some(s.clone())),
        Some(_) => None,
    }
}

fn int32_from(v: &JsonValue) -> (r: Option<i32>)
    ensures
        r == int32_of(*v),
{
    match v {
        JsonValue::Number(Some(n)) => {
            if i32::MIN as i64 <= *n && *n <= i32::MAX as i64 {
                Some(*n as i32)
            } else {
                None
            }
        },
        _ => None,
    }
}

fn read_req_i32(g: &Vec<(String, JsonValue)>, name: &str) -> (r: Option<i32>)
    ensures
        r == req_i32(member(g@, name@)),
{
    match find_member(g, name) {
        Some(x) => int32_from(x),
        None => None,
    }
}

fn read_opt_i32(g: &Vec<(String, JsonValue)>, name: &str) -> (r: Option<Option<i32>>)
    ensures
        r == opt_i32(member(g@, name@)),
{
    match find_member(g, name) {
        None => Some(None),
        Some(JsonValue::Null) => Some(None),
        Some(x) => match int32_from(x) {
            Some(n) => Some(Some(n)),
            None => None,
        },
    }
}

fn strings_from(a: &Vec<JsonValue>) -> (r: Option<Vec<String>>)
    ensures
        match r {
            Some(v) => all_strings(a@) && v@ == strings_view(a@),
            None => !all_strings(a@),
        },
{
    let mut out: Vec<String> = Vec::new();
    let mut i: usize = 0;
    while i < a.len()
        invariant
            i <= a@.len(),
            out@.len() == i,
            forall|j: int| 0 <= j < i ==> (#[trigger] a@[j]) is Str && out@[j] == a@[j]->Str_0,
        decreases a.len() - i,
    {
        match &a[i] {
            JsonValue::Str(s) => {
                out.push(s.clone());
            },
            _ => {
                return None;
            },
        }
        i = i + 1;
    }
    assert(out@ =~= strings_view(a@));
    Some(out)
}

fn read_opt_strings(g: &Vec<(String, JsonValue)>, name: &str) -> (r: Option<Option<Vec<String>>>)
    ensures
        match r {
            Some(x) => opt_strings(member(g@, name@)) == Some(opt_view(x)),
            None => opt_strings(member(g@, name@)) is None,
        },
{
    match find_member(g, name) {
        None => Some(None),
        Some(JsonValue::Null) => Some(None),
        Some(JsonValue::Array(a)) => match strings_from(a) {
            Some(v) => Some(Some(v)),
            None => None,
        },
        Some(_) => None,
    }
}

fn string_pairs_from(g: &Vec<(String, JsonValue)>) -> (r: Option<Vec<(String, String)>>)
    ensures
        match r {
            Some(v) => all_string_values(g@) && v@ == pairs_view(g@),
            None => !all_string_values(g@),
        },
{
    let mut out: Vec<(String, String)> = Vec::new();
    let mut i: usize = 0;
    while i < g.len()
        invariant
            i <= g@.len(),
            out@.len() == i,
            forall|j: int|
                0 <= j < i ==> (#[trigger] g@[j]).1 is Str && out@[j] == (g@[j].0, g@[j].1->Str_0),
        decreases g.len() - i,
    {
        match &g[i].1 {
            JsonValue::Str(s) => {
                out.push((g[i].0.clone(), s.clone()));
            },
            _ => {
                return None;
            },
        }
        i = i + 1;
    }
    assert(out@ =~= pairs_view(g@));
    Some(out)
}

fn read_opt_string_map(g: &Vec<(String, JsonValue)>, name: &str) -> (r: Option<
    Option<Vec<(String, String)>>,
>)
    ensures
        match r {
            Some(x) => opt_string_map(member(g@, name@)) == Some(opt_view(x)),
            None => opt_string_map(member(g@, name@)) is None,
        },
{
    match find_member(g, name) {
        None => Some(None),
        Some(JsonValue::Null) => Some(None),
        Some(JsonValue::Object(h)) => match string_pairs_from(h) {
            Some(v) => Some(Some(v)),
            None => None,
        },
        Some(_) => None,
    }
}

fn impersonation_from(g: &Vec<(String, JsonValue)>) -> (r: Option<ServiceAccountImpersonationInfo>)
    ensures
        r == impersonation_of(g@),
{
    match read_req_i32(g, "token_lifetime_seconds") {
        Some(t) => Some(ServiceAccountImpersonationInfo { token_lifetime_seconds: t }),
        None => None,
    }
}

fn executable_from(g: &Vec<(String, JsonValue)>) -> (r: Option<ExecutableConfig>)
    ensures
        r == executable_of(g@),
{
    let command = read_req_string(g, "command");
    let timeout = read_opt_i32(g, "timeout_millis");
    let output = read_req_string(g, "output_file");
    match (command, timeout, output) {
        (Some(command), Some(timeout_millis), Some(output_file)) => Some(
            ExecutableConfig { command, timeout_millis, output_file },
        ),
        _ => None,
    }
}

fn format_from(g: &Vec<(String, JsonValue)>) -> (r: Option<Format>)
    ensures
        r == format_of(g@),
{
    let tp = read_req_string(g, "type");
    let name = read_req_string(g, "subject_token_field_name");
    match (tp, name) {
        (Some(tp), Some(subject_token_field_name)) => Some(Format { tp, subject_token_field_name }),
        _ => None,
    }
}

fn read_opt_impersonation(g: &Vec<(String, JsonValue)>, name: &str) -> (r: Option<
    Option<ServiceAccountImpersonationInfo>,
>)
    ensures
        r == opt_impersonation(member(g@, name@)),
{
    match find_member(g, name) {
        None => Some(None),
        Some(JsonValue::Null) => Some(None),
        Some(JsonValue::Object(h)) => match impersonation_from(h) {
            Some(x) => Some(Some(x)),
            None => None,
        },
        Some(_) => None,
    }
}

fn read_opt_executable(g: &Vec<(String, JsonValue)>, name: &str) -> (r: Option<
    Option<ExecutableConfig>,
>)
    ensures
        r == opt_executable(member(g@, name@)),
{
    match find_member(g, name) {
        None => Some(None),
        Some(JsonValue::Null) => Some(None),
        Some(JsonValue::Object(h)) => match executable_from(h) {
            Some(x) => Some(Some(x)),
            None => None,
        },
        Some(_) => None,
    }
}

fn read_opt_format(g: &Vec<(String, JsonValue)>, name: &str) -> (r: Option<Option<Format>>)
    ensures
        r == opt_format(member(g@, name@)),
{
    match find_member(g, name) {
        None => Some(None),
        Some(JsonValue::Null) => Some(None),
        Some(JsonValue::Object(h)) => match format_from(h) {
            Some(x) => Some(Some(x)),
            None => None,
        },
        Some(_) => None,
    }
}

impl CredentialSource {
    /// Reads a credential-source object from its members.
    pub fn from_members(g: &Vec<(String, JsonValue)>) -> (r: Option<CredentialSource>)
        ensures
            match r {
                Some(s) => source_fits(s, g@),
                None => !source_ok(g@),
            },
    {
        let file = match read_opt_string(g, "file") {
            Some(x) => x,
            None => return None,
        };
        let url = match read_opt_string(g, "url") {
            Some(x) => x,
            None => return None,
        };
        let headers = match read_opt_string_map(g, "headers") {
            Some(x) => x,
            None => return None,
        };
        let executable = match read_opt_executable(g, "executable") {
            Some(x) => x,
            None => return None,
        };
        let environment_id = match read_opt_string(g, "environment_id") {
            Some(x) => x,
            None => return None,
        };
        let region_url = match read_opt_string(g, "region_url") {
            Some(x) => x,
            None => return None,
        };
        let regional_cred_verification_url = match read_opt_string(
            g,
            "regional_cred_verification_url",
        ) {
            Some(x) => x,
            None => return None,
        };
        let cred_verification_url = match read_opt_string(g, "cred_verification_url") {
            Some(x) => x,
            None => return None,
        };
        let imdsv2_session_token_url = match read_opt_string(g, "imdsv2_session_token_url") {
            Some(x) => x,
            None => return None,
        };
        let format = match read_opt_format(g, "format") {
            Some(x) => x,
            None => return None,
        };
        Some(
            CredentialSource {
                file,
                url,
                headers,
                executable,
                environment_id,
                region_url,
                regional_cred_verification_url,
                cred_verification_url,
                imdsv2_session_token_url,
                format,
            },
        )
    }
}

fn read_opt_source(g: &Vec<(String, JsonValue)>, name: &str) -> (r: Option<
    Option<CredentialSource>,
>)
    ensures
        match r {
            Some(s) => source_member_fits(s, member(g@, name@)),
            None => !source_member_ok(member(g@, name@)),
        },
{
    match find_member(g, name) {
        None => Some(None),
        Some(JsonValue::Null) => Some(None),
        Some(JsonValue::Object(h)) => match CredentialSource::from_members(h) {
            Some(x) => Some(Some(x)),
            None => None,
        },
        Some(_) => None,
    }
}

impl CredentialSource {
    /// A file path is given.
    pub open spec fn has_file(&self) -> bool {
        self.file is Some
    }

    /// A URL, or headers for a URL request, are given.
    pub open spec fn has_url(&self) -> bool {
        self.url is Some || self.headers is Some
    }

    /// A program to run is given.
    pub open spec fn has_executable(&self) -> bool {
        self.executable is Some
    }

    /// Any member of the cloud-metadata configuration is given.
    pub open spec fn has_metadata(&self) -> bool {
        ||| self.environment_id is Some
        ||| self.region_url is Some
        ||| self.regional_cred_verification_url is Some
        ||| self.cred_verification_url is Some
        ||| self.imdsv2_session_token_url is Some
        ||| self.format is Some
    }

    /// The one sub-configuration that the source holds; `None` where it holds
    /// none, or more than one.
    pub open spec fn spec_kind(&self) -> Option<SourceKind> {
        if self.has_file() && !self.has_url() && !self.has_executable() && !self.has_metadata() {
            Some(SourceKind::File)
        } else if !self.has_file() && self.has_url() && !self.has_executable()
            && !self.has_metadata() {
            Some(SourceKind::Url)
        } else if !self.has_file() && !self.has_url() && self.has_executable()
            && !self.has_metadata() {
            Some(SourceKind::Executable)
        } else if !self.has_file() && !self.has_url() && !self.has_executable()
            && self.has_metadata() {
            Some(SourceKind::Metadata)
        } else {
            None
        }
    }

    /// Classifies the source by which sub-configuration it holds, and refuses an
    /// ambiguous or empty one.
    pub fn kind(&self) -> (r: Option<SourceKind>)
        ensures
            r == self.spec_kind(),
    {
        let file = self.file.is_some();
        let url = self.url.is_some() || self.headers.is_some();
        let executable = self.executable.is_some();
        let metadata = self.environment_id.is_some() || self.region_url.is_some()
            || self.regional_cred_verification_url.is_some()
            || self.cred_verification_url.is_some() || self.imdsv2_session_token_url.is_some()
            || self.format.is_some();
        if file && !url && !executable && !metadata {
            Some(SourceKind::File)
        } else if !file && url && !executable && !metadata {
            Some(SourceKind::Url)
        } else if !file && !url && executable && !metadata {
            Some(SourceKind::Executable)
        } else if !file && !url && !executable && metadata {
            Some(SourceKind::Metadata)
        } else {
            None
        }
    }
}

impl CredentialsFile {
    /// Builds the descriptor that a parsed JSON value describes. Fails with
    /// `MalformedDocument` exactly where the value is not an object, lacks the
    /// string member `type`, or has a member of the wrong type.
    pub fn from_json(doc: &JsonValue) -> (r: Result<CredentialsFile, Error>)
        ensures
            r is Ok <==> descriptor_ok(*doc),
            r matches Ok(c) ==> describes(c, *doc),
            r matches Err(e) ==> e == Error::MalformedDocument,
    {
        let f = match doc {
            JsonValue::Object(f) => f,
            _ => return Err(Error::MalformedDocument),
        };
        let tp = match read_req_string(f, "type") {
            Some(x) => x,
            None => return Err(Error::MalformedDocument),
        };
        let client_email = match read_opt_string(f, "client_email") {
            Some(x) => x,
            None => return Err(Error::MalformedDocument),
        };
        let private_key_id = match read_opt_string(f, "private_key_id") {
            Some(x) => x,
            None => return Err(Error::MalformedDocument),
        };
        let private_key = match read_opt_string(f, "private_key") {
            Some(x) => x,
            None => return Err(Error::MalformedDocument),
        };
        let auth_uri = match read_opt_string(f, "auth_uri") {
            Some(x) => x,
            None => return Err(Error::MalformedDocument),
        };
        let token_uri = match read_opt_string(f, "token_uri") {
            Some(x) => x,
            None => return Err(Error::MalformedDocument),
        };
        let project_id = match read_opt_string(f, "project_id") {
            Some(x) => x,
            None => return Err(Error::MalformedDocument),
        };
        let client_secret = match read_opt_string(f, "client_secret") {
            Some(x) => x,
            None => return Err(Error::MalformedDocument),
        };
        let client_id = match read_opt_string(f, "client_id") {
            Some(x) => x,
            None => return Err(Error::MalformedDocument),
        };
        let refresh_token = match read_opt_string(f, "refresh_token") {
            Some(x) => x,
            None => return Err(Error::MalformedDocument),
        };
        let audience = match read_opt_string(f, "audience") {
            Some(x) => x,
            None => return Err(Error::MalformedDocument),
        };
        let subject_token_type = match read_opt_string(f, "subject_token_type") {
            Some(x) => x,
            None => return Err(Error::MalformedDocument),
        };
        let token_url_external = match read_opt_string(f, "token_url") {
            Some(x) => x,
            None => return Err(Error::MalformedDocument),
        };
        let token_info_url = match read_opt_string(f, "token_info_url") {
            Some(x) => x,
            None => return Err(Error::MalformedDocument),
        };
        let service_account_impersonation_url = match read_opt_string(f, "service_account_impersonation_url") {
            Some(x) => x,
            None => return Err(Error::MalformedDocument),
        };
        let service_account_impersonation = match read_opt_impersonation(f, "service_account_impersonation") {
            Some(x) => x,
            None => return Err(Error::MalformedDocument),
        };
        let delegates = match read_opt_strings(f, "delegates") {
            Some(x) => x,
            None => return Err(Error::MalformedDocument),
        };
        let credential_source = match read_opt_source(f, "credential_source") {
            Some(x) => x,
            None => return Err(Error::MalformedDocument),
        };
        let quota_project_id = match read_opt_string(f, "quota_project_id") {
            Some(x) => x,
            None => return Err(Error::MalformedDocument),
        };
        let workforce_pool_user_project = match read_opt_string(f, "workforce_pool_user_project") {
            Some(x) => x,
            None => return Err(Error::MalformedDocument),
        };
        Ok(
            CredentialsFile {
                tp,
                client_email,
                private_key_id,
                private_key,
                auth_uri,
                token_uri,
                project_id,
                client_secret,
                client_id,
                refresh_token,
                audience,
                subject_token_type,
                token_url_external,
                token_info_url,
                service_account_impersonation_url,
                service_account_impersonation,
                delegates,
                credential_source,
                quota_project_id,
                workforce_pool_user_project,
            },
        )
    }

    /// Parses a credential document from its bytes.
    pub fn from_slice(bytes: &[u8]) -> (r: Result<CredentialsFile, Error>)
        ensures
            match json_document(bytes@) {
                None => r == Err::<CredentialsFile, Error>(Error::MalformedDocument),
                Some(doc) => {
                    &&& (r is Ok <==> descriptor_ok(doc))
                    &&& (r matches Ok(c) ==> describes(c, doc))
                    &&& (r matches Err(e) ==> e == Error::MalformedDocument)
                },
            },
    {
        match parse_json(bytes) {
            Some(doc) => CredentialsFile::from_json(&doc),
            None => Err(Error::MalformedDocument),
        }
    }
}

/// A document whose only member is the string discriminant `type` parses, and
/// every optional field of its descriptor is absent.
pub proof fn lemma_discriminant_only(fields: Vec<(String, JsonValue)>)
    requires
        fields@.len() == 1,
        fields@[0].0@ == "type"@,
        fields@[0].1 is Str,
    ensures
        descriptor_ok(JsonValue::Object(fields)),
        forall|c: CredentialsFile|
            describes(c, JsonValue::Object(fields)) ==> {
                &&& c.tp == fields@[0].1->Str_0
                &&& c.client_email is None
                &&& c.private_key_id is None
                &&& c.private_key is None
                &&& c.auth_uri is None
                &&& c.token_uri is None
                &&& c.project_id is None
                &&& c.client_secret is None
                &&& c.client_id is None
                &&& c.refresh_token is None
                &&& c.audience is None
                &&& c.subject_token_type is None
                &&& c.token_url_external is None
                &&& c.token_info_url is None
                &&& c.service_account_impersonation_url is None
                &&& c.service_account_impersonation is None
                &&& c.delegates is None
                &&& c.credential_source is None
                &&& c.quota_project_id is None
                &&& c.workforce_pool_user_project is None
            },
{
    reveal_strlit("type");
    assert("type"@.len() == 4);
    reveal_strlit("client_email");
    assert("client_email"@.len() == 12);
    reveal_strlit("private_key_id");
    assert("private_key_id"@.len() == 14);
    reveal_strlit("private_key");
    assert("private_key"@.len() == 11);
    reveal_strlit("auth_uri");
    assert("auth_uri"@.len() == 8);
    reveal_strlit("token_uri");
    assert("token_uri"@.len() == 9);
    reveal_strlit("project_id");
    assert("project_id"@.len() == 10);
    reveal_strlit("client_secret");
    assert("client_secret"@.len() == 13);
    reveal_strlit("client_id");
    assert("client_id"@.len() == 9);
    reveal_strlit("refresh_token");
    assert("refresh_token"@.len() == 13);
    reveal_strlit("audience");
    assert("audience"@.len() == 8);
    reveal_strlit("subject_token_type");
    assert("subject_token_type"@.len() == 18);
    reveal_strlit("token_url");
    assert("token_url"@.len() == 9);
    reveal_strlit("token_info_url");
    assert("token_info_url"@.len() == 14);
    reveal_strlit("service_account_impersonation_url");
    assert("service_account_impersonation_url"@.len() == 33);
    reveal_strlit("service_account_impersonation");
    assert("service_account_impersonation"@.len() == 29);
    reveal_strlit("delegates");
    assert("delegates"@.len() == 9);
    reveal_strlit("credential_source");
    assert("credential_source"@.len() == 17);
    reveal_strlit("quota_project_id");
    assert("quota_project_id"@.len() == 16);
    reveal_strlit("workforce_pool_user_project");
    assert("workforce_pool_user_project"@.len() == 27);
    let f = fields@;
    lemma_single_member(f, "type"@);
    lemma_single_member(f, "client_email"@);
    lemma_single_member(f, "private_key_id"@);
    lemma_single_member(f, "private_key"@);
    lemma_single_member(f, "auth_uri"@);
    lemma_single_member(f, "token_uri"@);
    lemma_single_member(f, "project_id"@);
    lemma_single_member(f, "client_secret"@);
    lemma_single_member(f, "client_id"@);
    lemma_single_member(f, "refresh_token"@);
    lemma_single_member(f, "audience"@);
    lemma_single_member(f, "subject_token_type"@);
    lemma_single_member(f, "token_url"@);
    lemma_single_member(f, "token_info_url"@);
    lemma_single_member(f, "service_account_impersonation_url"@);
    lemma_single_member(f, "service_account_impersonation"@);
    lemma_single_member(f, "delegates"@);
    lemma_single_member(f, "credential_source"@);
    lemma_single_member(f, "quota_project_id"@);
    lemma_single_member(f, "workforce_pool_user_project"@);
}

/// One of the names of a minimal external-account document.
pub open spec fn only_external_members(name: Seq<char>) -> bool {
    ||| name == "type"@
    ||| name == "audience"@
    ||| name == "subject_token_type"@
    ||| name == "token_url"@
    ||| name == "service_account_impersonation_url"@
    ||| name == "credential_source"@
}

/// The text of a string member.
pub open spec fn text_member(f: Seq<(String, JsonValue)>, name: Seq<char>) -> String {
    member(f, name)->Some_0->Str_0
}

/// A descriptor parsed from an external-account document, whose credential
/// source names only a file, keeps the audience, subject-token type, token URL,
/// impersonation URL and file path as the document gives them, and its source
/// is classified as a file source. A document with these members and the
/// discriminant `type`, and no others, parses.
pub proof fn lemma_external_account_round_trip(
    fields: Vec<(String, JsonValue)>,
    source: Vec<(String, JsonValue)>,
)
    requires
        member(fields@, "audience"@) matches Some(JsonValue::Str(_)),
        member(fields@, "subject_token_type"@) matches Some(JsonValue::Str(_)),
        member(fields@, "token_url"@) matches Some(JsonValue::Str(_)),
        member(fields@, "service_account_impersonation_url"@) matches Some(JsonValue::Str(_)),
        member(fields@, "credential_source"@) == Some(JsonValue::Object(source)),
        source@.len() == 1,
        source@[0].0@ == "file"@,
        source@[0].1 is Str,
    ensures
        ((member(fields@, "type"@) matches Some(JsonValue::Str(_))) && forall|i: int|
            0 <= i < fields@.len() ==> only_external_members((#[trigger] fields@[i]).0@))
            ==> descriptor_ok(JsonValue::Object(fields)),
        forall|c: CredentialsFile|
            describes(c, JsonValue::Object(fields)) ==> {
                &&& c.audience == Some(text_member(fields@, "audience"@))
                &&& c.subject_token_type == Some(text_member(fields@, "subject_token_type"@))
                &&& c.token_url_external == Some(text_member(fields@, "token_url"@))
                &&& c.service_account_impersonation_url == Some(
                    text_member(fields@, "service_account_impersonation_url"@),
                )
                &&& c.credential_source matches Some(s) && s.file == Some(source@[0].1->Str_0)
                    && s.spec_kind() == Some(SourceKind::File)
            },
{
    reveal_strlit("audience");
    assert("audience"@.len() == 8);
    reveal_strlit("auth_uri");
    assert("auth_uri"@.len() == 8);
    reveal_strlit("client_email");
    assert("client_email"@.len() == 12);
    reveal_strlit("client_id");
    assert("client_id"@.len() == 9);
    reveal_strlit("client_secret");
    assert("client_secret"@.len() == 13);
    reveal_strlit("credential_source");
    assert("credential_source"@.len() == 17);
    reveal_strlit("delegates");
    assert("delegates"@.len() == 9);
    reveal_strlit("private_key");
    assert("private_key"@.len() == 11);
    reveal_strlit("private_key_id");
    assert("private_key_id"@.len() == 14);
    reveal_strlit("project_id");
    assert("project_id"@.len() == 10);
    reveal_strlit("quota_project_id");
    assert("quota_project_id"@.len() == 16);
    reveal_strlit("refresh_token");
    assert("refresh_token"@.len() == 13);
    reveal_strlit("service_account_impersonation");
    assert("service_account_impersonation"@.len() == 29);
    reveal_strlit("service_account_impersonation_url");
    assert("service_account_impersonation_url"@.len() == 33);
    reveal_strlit("subject_token_type");
    assert("subject_token_type"@.len() == 18);
    reveal_strlit("token_info_url");
    assert("token_info_url"@.len() == 14);
    reveal_strlit("token_uri");
    assert("token_uri"@.len() == 9);
    reveal_strlit("token_url");
    assert("token_url"@.len() == 9);
    reveal_strlit("type");
    assert("type"@.len() == 4);
    reveal_strlit("workforce_pool_user_project");
    assert("workforce_pool_user_project"@.len() == 27);
    assert("auth_uri"@[2] != "audience"@[2]);
    assert("token_uri"@[8] != "token_url"@[8]);
    assert("client_id"@[0] != "token_url"@[0]);
    assert("delegates"@[0] != "token_url"@[0]);
    let f = fields@;
    if (member(f, "type"@) matches Some(JsonValue::Str(_))) && forall|i: int|
        0 <= i < f.len() ==> only_external_members((#[trigger] f[i]).0@) {
        assert forall|k: int| 0 <= k < f.len() implies (#[trigger] f[k]).0@ != "client_email"@ by {
            assert(only_external_members(f[k].0@));
        }
        lemma_absent_member(f, "client_email"@, 0);
        assert forall|k: int| 0 <= k < f.len() implies (#[trigger] f[k]).0@ != "private_key_id"@ by {
            assert(only_external_members(f[k].0@));
        }
        lemma_absent_member(f, "private_key_id"@, 0);
        assert forall|k: int| 0 <= k < f.len() implies (#[trigger] f[k]).0@ != "private_key"@ by {
            assert(only_external_members(f[k].0@));
        }
        lemma_absent_member(f, "private_key"@, 0);
        assert forall|k: int| 0 <= k < f.len() implies (#[trigger] f[k]).0@ != "auth_uri"@ by {
            assert(only_external_members(f[k].0@));
        }
        lemma_absent_member(f, "auth_uri"@, 0);
        assert forall|k: int| 0 <= k < f.len() implies (#[trigger] f[k]).0@ != "token_uri"@ by {
            assert(only_external_members(f[k].0@));
        }
        lemma_absent_member(f, "token_uri"@, 0);
        assert forall|k: int| 0 <= k < f.len() implies (#[trigger] f[k]).0@ != "project_id"@ by {
            assert(only_external_members(f[k].0@));
        }
        lemma_absent_member(f, "project_id"@, 0);
        assert forall|k: int| 0 <= k < f.len() implies (#[trigger] f[k]).0@ != "client_secret"@ by {
            assert(only_external_members(f[k].0@));
        }
        lemma_absent_member(f, "client_secret"@, 0);
        assert forall|k: int| 0 <= k < f.len() implies (#[trigger] f[k]).0@ != "client_id"@ by {
            assert(only_external_members(f[k].0@));
        }
        lemma_absent_member(f, "client_id"@, 0);
        assert forall|k: int| 0 <= k < f.len() implies (#[trigger] f[k]).0@ != "refresh_token"@ by {
            assert(only_external_members(f[k].0@));
        }
        lemma_absent_member(f, "refresh_token"@, 0);
        assert forall|k: int| 0 <= k < f.len() implies (#[trigger] f[k]).0@ != "token_info_url"@ by {
            assert(only_external_members(f[k].0@));
        }
        lemma_absent_member(f, "token_info_url"@, 0);
        assert forall|k: int| 0 <= k < f.len() implies (#[trigger] f[k]).0@ != "service_account_impersonation"@ by {
            assert(only_external_members(f[k].0@));
        }
        lemma_absent_member(f, "service_account_impersonation"@, 0);
        assert forall|k: int| 0 <= k < f.len() implies (#[trigger] f[k]).0@ != "delegates"@ by {
            assert(only_external_members(f[k].0@));
        }
        lemma_absent_member(f, "delegates"@, 0);
        assert forall|k: int| 0 <= k < f.len() implies (#[trigger] f[k]).0@ != "quota_project_id"@ by {
            assert(only_external_members(f[k].0@));
        }
        lemma_absent_member(f, "quota_project_id"@, 0);
        assert forall|k: int| 0 <= k < f.len() implies (#[trigger] f[k]).0@ != "workforce_pool_user_project"@ by {
            assert(only_external_members(f[k].0@));
        }
        lemma_absent_member(f, "workforce_pool_user_project"@, 0);
    }
    let g = source@;
    reveal_strlit("file");
    assert("file"@.len() == 4);
    reveal_strlit("url");
    assert("url"@.len() == 3);
    reveal_strlit("headers");
    assert("headers"@.len() == 7);
    reveal_strlit("executable");
    assert("executable"@.len() == 10);
    reveal_strlit("environment_id");
    assert("environment_id"@.len() == 14);
    reveal_strlit("region_url");
    assert("region_url"@.len() == 10);
    reveal_strlit("regional_cred_verification_url");
    assert("regional_cred_verification_url"@.len() == 30);
    reveal_strlit("cred_verification_url");
    assert("cred_verification_url"@.len() == 21);
    reveal_strlit("imdsv2_session_token_url");
    assert("imdsv2_session_token_url"@.len() == 24);
    reveal_strlit("format");
    assert("format"@.len() == 6);
    lemma_single_member(g, "file"@);
    lemma_single_member(g, "url"@);
    lemma_single_member(g, "headers"@);
    lemma_single_member(g, "executable"@);
    lemma_single_member(g, "environment_id"@);
    lemma_single_member(g, "region_url"@);
    lemma_single_member(g, "regional_cred_verification_url"@);
    lemma_single_member(g, "cred_verification_url"@);
    lemma_single_member(g, "imdsv2_session_token_url"@);
    lemma_single_member(g, "format"@);
}

} // verus!
