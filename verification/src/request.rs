//! The four requests of a run, as values that the program turns into calls.

use vstd::prelude::*;
use crate::config::{Settings, SettingsView};
use crate::error::{EnrolError, EnrolErrorView};

verus! {

/// The HTTP method of a request.
#[derive(Clone, Copy, Debug, PartialEq, Eq, Structural)]
pub enum Method {
    Post,
    Delete,
}

/// A name with its value: a member of a JSON object or a field of a form.
#[derive(Clone, Debug, PartialEq, Eq)]
pub struct Pair {
    pub name: String,
    pub value: String,
}

/// One part of a multipart form.
#[derive(Clone, Debug, PartialEq, Eq)]
pub enum Part {
    /// A text field.
    Text { name: String, value: String },
    /// Bytes attached as a file.
    File { name: String, file_name: String, content: Vec<u8> },
}

/// How a request authenticates itself.
#[derive(Clone, Debug, PartialEq, Eq)]
pub enum Auth {
    /// Not at all: the credentials travel in the body.
    Anonymous,
    /// HTTP Basic authentication with a user name and a password.
    Basic { username: String, password: String },
    /// An `Authorization` header with this value, which holds a bearer token.
    Bearer { header: String },
}

/// The body of a request.
#[derive(Clone, Debug, PartialEq, Eq)]
pub enum Payload {
    /// No body.
    Empty,
    /// A JSON object whose members are all strings.
    Json { members: Vec<Pair> },
    /// A URL-encoded form.
    Form { fields: Vec<Pair> },
    /// A multipart form.
    Multipart { parts: Vec<Part> },
}

/// A request for the program to send.
#[derive(Clone, Debug, PartialEq, Eq)]
pub struct Request {
    pub method: Method,
    pub url: String,
    pub auth: Auth,
    pub payload: Payload,
}

pub struct PairView {
    pub name: Seq<char>,
    pub value: Seq<char>,
}

pub enum PartView {
    Text { name: Seq<char>, value: Seq<char> },
    File { name: Seq<char>, file_name: Seq<char>, content: Seq<u8> },
}

pub enum AuthView {
    Anonymous,
    Basic { username: Seq<char>, password: Seq<char> },
    Bearer { header: Seq<char> },
}

pub enum PayloadView {
    Empty,
    Json { members: Seq<PairView> },
    Form { fields: Seq<PairView> },
    Multipart { parts: Seq<PartView> },
}

/// A request as a mathematical value.
pub struct RequestView {
    pub method: Method,
    pub url: Seq<char>,
    pub auth: AuthView,
    pub payload: PayloadView,
}

impl View for Pair {
    type V = PairView;

    open spec fn view(&self) -> PairView {
        PairView { name: self.name@, value: self.value@ }
    }
}

impl View for Part {
    type V = PartView;

    open spec fn view(&self) -> PartView {
        match *self {
            Part::Text { name, value } => PartView::Text { name: name@, value: value@ },
            Part::File { name, file_name, content } => PartView::File {
                name: name@,
                file_name: file_name@,
                content: content@,
            },
        }
    }
}

impl View for Auth {
    type V = AuthView;

    open spec fn view(&self) -> AuthView {
        match *self {
            Auth::Anonymous => AuthView::Anonymous,
            Auth::Basic { username, password } => AuthView::Basic {
                username: username@,
                password: password@,
            },
            Auth::Bearer { header } => AuthView::Bearer { header: header@ },
        }
    }
}

impl View for Payload {
    type V = PayloadView;

    open spec fn view(&self) -> PayloadView {
        match *self {
            Payload::Empty => PayloadView::Empty,
            Payload::Json { members } => PayloadView::Json {
                members: members@.map_values(|pair: Pair| pair@),
            },
            Payload::Form { fields } => PayloadView::Form {
                fields: fields@.map_values(|pair: Pair| pair@),
            },
            Payload::Multipart { parts } => PayloadView::Multipart {
                parts: parts@.map_values(|part: Part| part@),
            },
        }
    }
}

impl View for Request {
    type V = RequestView;

    open spec fn view(&self) -> RequestView {
        RequestView {
            method: self.method,
            url: self.url@,
            auth: self.auth@,
            payload: self.payload@,
        }
    }
}

pub open spec fn pair(name: Seq<char>, value: Seq<char>) -> PairView {
    PairView { name, value }
}

pub open spec fn text_part(name: Seq<char>, value: Seq<char>) -> PartView {
    PartView::Text { name, value }
}

/// Where enrolment tokens are asked for.
pub open spec fn token_url(region: Seq<char>) -> Seq<char> {
    "https://"@ + region + ".secure.iproov.me/api/v2/claim/enrol/token"@
}

/// Where photos are enrolled.
pub open spec fn image_url(region: Seq<char>) -> Seq<char> {
    "https://"@ + region + ".secure.iproov.me/api/v2/claim/enrol/image"@
}

/// Where a service provider gets its access tokens.
pub open spec fn access_token_url(region: Seq<char>, sp_key: Seq<char>) -> Seq<char> {
    "https://"@ + region + ".secure.iproov.me/api/v2/"@ + sp_key + "/access_token"@
}

/// The resource of one user.
pub open spec fn user_url(region: Seq<char>, username: Seq<char>) -> Seq<char> {
    "https://"@ + region + ".secure.iproov.me/api/v2/users/"@ + username
}

/// The request for an enrolment token: a POST of a JSON object with the
/// fixed resource, the key, the secret and the user.
pub open spec fn token_request(config: SettingsView, username: Seq<char>) -> RequestView {
    RequestView {
        method: Method::Post,
        url: token_url(config.region),
        auth: AuthView::Anonymous,
        payload: PayloadView::Json {
            members: seq![
                pair("resource"@, "photo_enrol_test"@),
                pair("api_key"@, config.sp_key),
                pair("secret"@, config.sp_secret),
                pair("user_id"@, username),
            ],
        },
    }
}

/// The request that enrols a photo: a POST of a multipart form with the key,
/// the secret, a rotation of zero, the image as a file, the token and the
/// label of the image's source.
pub open spec fn photo_request(config: SettingsView, token: Seq<char>, image: Seq<u8>)
    -> RequestView {
    RequestView {
        method: Method::Post,
        url: image_url(config.region),
        auth: AuthView::Anonymous,
        payload: PayloadView::Multipart {
            parts: seq![
                text_part("api_key"@, config.sp_key),
                text_part("secret"@, config.sp_secret),
                text_part("rotation"@, "0"@),
                PartView::File { name: "image"@, file_name: "image.jpg"@, content: image },
                text_part("token"@, token),
                text_part("source"@, config.img_src),
            ],
        },
    }
}

/// The request for an access token: a POST under Basic authentication of a
/// form that asks for the client-credentials grant.
pub open spec fn access_token_request(config: SettingsView) -> RequestView {
    RequestView {
        method: Method::Post,
        url: access_token_url(config.region, config.sp_key),
        auth: AuthView::Basic { username: config.oa_username, password: config.oa_pw },
        payload: PayloadView::Form { fields: seq![pair("grant_type"@, "client_credentials"@)] },
    }
}

/// The value of the `Authorization` header that carries a bearer token.
pub open spec fn bearer_header(access_token: Seq<char>) -> Seq<char> {
    "Bearer "@ + access_token
}

/// The request that deletes a user: a DELETE under the bearer token.
pub open spec fn delete_request(
    config: SettingsView,
    access_token: Seq<char>,
    username: Seq<char>,
) -> RequestView {
    RequestView {
        method: Method::Delete,
        url: user_url(config.region, username),
        auth: AuthView::Bearer { header: bearer_header(access_token) },
        payload: PayloadView::Empty,
    }
}

/// A character that may stand in the value of an HTTP header: anything from
/// the space upwards but the delete character, and the tab.
pub open spec fn header_char(c: char) -> bool {
    (c as u32 >= 32 && c as u32 != 127) || c == '\t'
}

/// A text that may be the value of an HTTP header.
pub open spec fn header_text(text: Seq<char>) -> bool {
    forall|i: int| 0 <= i < text.len() ==> header_char(#[trigger] text[i])
}

/// Asks `reqwest::header::HeaderValue::from_str` whether it takes the text.
/// It refuses a text exactly when one of its bytes is below 32 and not the
/// tab, or is 127. In UTF-8 every byte of a character beyond ASCII is 128 or
/// more, so the test on bytes is the same test on characters.
#[verifier::external_body]
fn header_value_accepts(text: &str) -> (accepted: bool)
    ensures
        accepted == header_text(text@),
{
    reqwest::header::HeaderValue::from_str(text).is_ok()
}

fn new_pair(name: &str, value: &str) -> (made: Pair)
    ensures
        made@ == pair(name@, value@),
{
    Pair { name: String::from_str(name), value: String::from_str(value) }
}

fn new_text(name: &str, value: &str) -> (made: Part)
    ensures
        made@ == text_part(name@, value@),
{
    Part::Text { name: String::from_str(name), value: String::from_str(value) }
}

/// The request for an enrolment token for `username`.
pub fn create_token(config: &Settings, username: &str) -> (request: Request)
    ensures
        request@ == token_request(config@, username@),
{
    let mut url = String::from_str("https://");
    url.append(config.region.as_str());
    url.append(".secure.iproov.me/api/v2/claim/enrol/token");
    let mut members: Vec<Pair> = Vec::new();
    members.push(new_pair("resource", "photo_enrol_test"));
    members.push(new_pair("api_key", config.sp_key.as_str()));
    members.push(new_pair("secret", config.sp_secret.as_str()));
    members.push(new_pair("user_id", username));
    assert(members@.map_values(|pair: Pair| pair@) =~= token_request(
        config@,
        username@,
    ).payload->Json_members);
    Request { method: Method::Post, url, auth: Auth::Anonymous, payload: Payload::Json { members } }
}

/// The request that enrols `image` under `token`.
pub fn send_photo(config: &Settings, token: &str, image: Vec<u8>) -> (request: Request)
    ensures
        request@ == photo_request(config@, token@, image@),
{
    let mut url = String::from_str("https://");
    url.append(config.region.as_str());
    url.append(".secure.iproov.me/api/v2/claim/enrol/image");
    let ghost content = image@;
    let mut parts: Vec<Part> = Vec::new();
    parts.push(new_text("api_key", config.sp_key.as_str()));
    parts.push(new_text("secret", config.sp_secret.as_str()));
    parts.push(new_text("rotation", "0"));
    parts.push(
        Part::File {
            name: String::from_str("image"),
            file_name: String::from_str("image.jpg"),
            content: image,
        },
    );
    parts.push(new_text("token", token));
    parts.push(new_text("source", config.img_src.as_str()));
    assert(parts@.map_values(|part: Part| part@) =~= photo_request(
        config@,
        token@,
        content,
    ).payload->Multipart_parts);
    Request {
        method: Method::Post,
        url,
        auth: Auth::Anonymous,
        payload: Payload::Multipart { parts },
    }
}

/// The request that exchanges the OAuth credentials for an access token.
pub fn create_access_token(config: &Settings) -> (request: Request)
    ensures
        request@ == access_token_request(config@),
{
    let mut url = String::from_str("https://");
    url.append(config.region.as_str());
    url.append(".secure.iproov.me/api/v2/");
    url.append(config.sp_key.as_str());
    url.append("/access_token");
    let mut fields: Vec<Pair> = Vec::new();
    fields.push(new_pair("grant_type", "client_credentials"));
    assert(fields@.map_values(|pair: Pair| pair@) =~= access_token_request(
        config@,
    ).payload->Form_fields);
    Request {
        method: Method::Post,
        url,
        auth: Auth::Basic {
            username: config.oa_username.clone(),
            password: config.oa_pw.clone(),
        },
        payload: Payload::Form { fields },
    }
}

/// The request that deletes `username` under `access_token`. There is one
/// exactly when the token can stand in a header; otherwise the token is
/// refused.
pub fn delete_user(config: &Settings, access_token: &str, username: &str) -> (request: Result<
    Request,
    EnrolError,
>)
    ensures
        request is Ok <==> header_text(bearer_header(access_token@)),
        request matches Ok(made) ==> made@ == delete_request(config@, access_token@, username@),
        request matches Err(error) ==> error@ == EnrolErrorView::InvalidBearer,
{
    let mut url = String::from_str("https://");
    url.append(config.region.as_str());
    url.append(".secure.iproov.me/api/v2/users/");
    url.append(username);
    let mut header = String::from_str("Bearer ");
    header.append(access_token);
    if header_value_accepts(header.as_str()) {
        Ok(
            Request {
                method: Method::Delete,
                url,
                auth: Auth::Bearer { header },
                payload: Payload::Empty,
            },
        )
    } else {
        Err(EnrolError::InvalidBearer)
    }
}

} // verus!
