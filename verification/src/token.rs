//! Requests to a provider's token endpoint, its answers, and the credential
//! that the client keeps.

use crate::error::{outcome, read_outcome, ErrorView, IoError, IoErrorView, ZitadelCLIError};
use crate::json::{
    find_member, joined, json_string_literal, json_text, lemma_plain_text_is_quoted, member,
    member_texts, parse, parsed, Json, JsonValue,
};
use crate::text::{decimal, lemma_decimal_reads_back};
use vstd::prelude::*;
use vstd::string::StringExecFns;

verus! {

/// A token as the token endpoint grants it.
#[derive(Debug, Clone, PartialEq, Eq)]
pub struct TokenResponse {
    pub access_token: String,
    pub token_type: String,
    /// For how many seconds the token is good.
    pub expires_in: u64,
}

/// The mathematical value of a [`TokenResponse`].
pub ghost struct TokenView {
    pub access_token: Seq<char>,
    pub token_type: Seq<char>,
    pub expires_in: u64,
}

impl View for TokenResponse {
    type V = TokenView;

    open spec fn view(&self) -> TokenView {
        TokenView {
            access_token: self.access_token@,
            token_type: self.token_type@,
            expires_in: self.expires_in,
        }
    }
}

/// What the client keeps after a login: the token that the provider granted,
/// or the personal access token as it was configured.
#[derive(Debug, Clone, PartialEq, Eq)]
pub enum Credential {
    Token(TokenResponse),
    PersonalAccessToken(String),
}

/// The mathematical value of a [`Credential`].
pub ghost enum CredentialView {
    Token(TokenView),
    PersonalAccessToken(Seq<char>),
}

impl View for Credential {
    type V = CredentialView;

    open spec fn view(&self) -> CredentialView {
        match self {
            Credential::Token(token) => CredentialView::Token(token@),
            Credential::PersonalAccessToken(token) => CredentialView::PersonalAccessToken(token@),
        }
    }
}

/// The access token of a credential that was saved.
#[derive(Debug, Clone, PartialEq, Eq)]
pub struct Token {
    pub access_token: String,
}

/// The mathematical value of a [`Token`].
pub ghost struct AccessTokenView {
    pub access_token: Seq<char>,
}

impl View for Token {
    type V = AccessTokenView;

    open spec fn view(&self) -> AccessTokenView {
        AccessTokenView { access_token: self.access_token@ }
    }
}

/// A POST to a token endpoint: the fields of its form, in order, and the
/// user and password of its Basic authentication, if it has one.
#[derive(Debug, Clone, PartialEq, Eq)]
pub struct TokenRequest {
    pub url: String,
    pub form: Vec<(String, String)>,
    pub basic_auth: Option<(String, String)>,
}

/// The mathematical value of a [`TokenRequest`].
pub ghost struct TokenRequestView {
    pub url: Seq<char>,
    pub form: Seq<(Seq<char>, Seq<char>)>,
    pub basic_auth: Option<(Seq<char>, Seq<char>)>,
}

impl View for TokenRequest {
    type V = TokenRequestView;

    open spec fn view(&self) -> TokenRequestView {
        TokenRequestView {
            url: self.url@,
            form: self.form.deep_view(),
            basic_auth: self.basic_auth.deep_view(),
        }
    }
}

/// The request that exchanges an authorization code for a token.
pub open spec fn code_exchange(
    token_endpoint: Seq<char>,
    client_id: Seq<char>,
    code: Seq<char>,
    redirect_uri: Seq<char>,
    code_verifier: Seq<char>,
) -> TokenRequestView {
    TokenRequestView {
        url: token_endpoint,
        form: seq![
            ("grant_type"@, "authorization_code"@),
            ("client_id"@, client_id),
            ("code"@, code),
            ("redirect_uri"@, redirect_uri),
            ("code_verifier"@, code_verifier),
        ],
        basic_auth: None,
    }
}

/// The request that exchanges the client's own credentials for a token.
pub open spec fn credentials_exchange(
    token_endpoint: Seq<char>,
    client_id: Seq<char>,
    client_secret: Seq<char>,
    scope: Seq<char>,
) -> TokenRequestView {
    TokenRequestView {
        url: token_endpoint,
        form: seq![
            ("grant_type"@, "client_credentials"@),
            ("client_id"@, client_id),
            ("client_secret"@, client_secret),
            ("scope"@, scope),
        ],
        basic_auth: Some((client_id, client_secret)),
    }
}

/// The token in a JSON document: an object with the three members of a
/// token, of the right kinds.
pub open spec fn token_of(document: JsonValue) -> Result<TokenView, ErrorView> {
    match document.text_field("access_token"@) {
        Err(e) => Err(e),
        Ok(access_token) => match document.text_field("token_type"@) {
            Err(e) => Err(e),
            Ok(token_type) => match document.unsigned_field("expires_in"@) {
                Err(e) => Err(e),
                Ok(expires_in) => Ok(TokenView { access_token, token_type, expires_in }),
            },
        },
    }
}

/// What an answer of the token endpoint means: a token where the status is
/// 200 and the body holds one, and else the error that says why not.
pub open spec fn token_answer(status: u16, body: Seq<char>) -> Result<TokenView, ErrorView> {
    if status == 200 {
        match parsed(body) {
            Err(e) => Err(e),
            Ok(document) => token_of(document),
        }
    } else if status == 401 {
        Err(ErrorView::Unauthorized(body))
    } else {
        Err(ErrorView::UnexpectedStatus { status, body })
    }
}

/// The JSON document of a token: an object of its three members, in the
/// order of the fields.
pub open spec fn token_tree(token: TokenView) -> JsonValue {
    JsonValue::Object(
        seq![
            ("access_token"@, JsonValue::Text(token.access_token)),
            ("token_type"@, JsonValue::Text(token.token_type)),
            ("expires_in"@, JsonValue::Number(decimal(token.expires_in as nat))),
        ],
    )
}

/// The JSON document of a credential: a token as an object, a personal
/// access token as a string.
pub open spec fn credential_tree(credential: CredentialView) -> JsonValue {
    match credential {
        CredentialView::Token(token) => token_tree(token),
        CredentialView::PersonalAccessToken(token) => JsonValue::Text(token),
    }
}

/// The JSON text of a credential, as it is kept in the credential file.
pub open spec fn credential_text(credential: CredentialView) -> Seq<char> {
    json_text(credential_tree(credential))
}

/// The access token in what was read from the credential file: the file has
/// to be there and to hold a JSON object with an access token.
pub open spec fn access_token_in(read: Result<Seq<char>, IoErrorView>) -> Result<
    AccessTokenView,
    ErrorView,
> {
    match read {
        Err(failure) => Err(ErrorView::IO(failure)),
        Ok(text) => match parsed(text) {
            Err(e) => Err(e),
            Ok(document) => match document.text_field("access_token"@) {
                Err(e) => Err(e),
                Ok(access_token) => Ok(AccessTokenView { access_token }),
            },
        },
    }
}

/// A field of a form.
fn field(name: &str, value: &str) -> (pair: (String, String))
    ensures
        pair.deep_view() == (name@, value@),
{
    (String::from_str(name), String::from_str(value))
}

/// The request that exchanges an authorization code for a token.
pub fn exchange_code_request(
    token_endpoint: &str,
    client_id: &str,
    code: &str,
    redirect_uri: &str,
    code_verifier: &str,
) -> (request: TokenRequest)
    ensures
        request@ == code_exchange(
            token_endpoint@,
            client_id@,
            code@,
            redirect_uri@,
            code_verifier@,
        ),
{
    let mut form: Vec<(String, String)> = Vec::new();
    form.push(field("grant_type", "authorization_code"));
    form.push(field("client_id", client_id));
    form.push(field("code", code));
    form.push(field("redirect_uri", redirect_uri));
    form.push(field("code_verifier", code_verifier));
    let request = TokenRequest { url: String::from_str(token_endpoint), form, basic_auth: None };
    assert(request@.form =~= code_exchange(
        token_endpoint@,
        client_id@,
        code@,
        redirect_uri@,
        code_verifier@,
    ).form);
    request
}

/// The request that exchanges the client's own credentials for a token.
pub fn client_credentials_request(
    token_endpoint: &str,
    client_id: &str,
    client_secret: &str,
    scope: &str,
) -> (request: TokenRequest)
    ensures
        request@ == credentials_exchange(token_endpoint@, client_id@, client_secret@, scope@),
{
    let mut form: Vec<(String, String)> = Vec::new();
    form.push(field("grant_type", "client_credentials"));
    form.push(field("client_id", client_id));
    form.push(field("client_secret", client_secret));
    form.push(field("scope", scope));
    let request = TokenRequest {
        url: String::from_str(token_endpoint),
        form,
        basic_auth: Some(field(client_id, client_secret)),
    };
    assert(request@.form =~= credentials_exchange(
        token_endpoint@,
        client_id@,
        client_secret@,
        scope@,
    ).form);
    request
}

impl TokenResponse {
    /// Reads a token from a JSON document.
    pub fn from_json(document: &Json) -> (r: Result<TokenResponse, ZitadelCLIError>)
        ensures
            outcome(r) == token_of(document@),
    {
        let access_token = match document.text_field("access_token") {
            Ok(text) => text,
            Err(e) => return Err(e),
        };
        let token_type = match document.text_field("token_type") {
            Ok(text) => text,
            Err(e) => return Err(e),
        };
        let expires_in = match document.unsigned_field("expires_in") {
            Ok(number) => number,
            Err(e) => return Err(e),
        };
        Ok(TokenResponse { access_token, token_type, expires_in })
    }

    /// The token as a JSON document.
    pub fn to_json(&self) -> (document: Json)
        ensures
            document@ == token_tree(self@),
    {
        let mut members: Vec<(String, Json)> = Vec::new();
        members.push(member("access_token", Json::text(self.access_token.as_str())));
        members.push(member("token_type", Json::text(self.token_type.as_str())));
        members.push(member("expires_in", Json::number(self.expires_in)));
        let document = Json::Object(members);
        assert(document@->Object_0 =~= token_tree(self@)->Object_0);
        document
    }
}

impl Credential {
    /// The credential as a JSON document.
    pub fn to_json(&self) -> (document: Json)
        ensures
            document@ == credential_tree(self@),
    {
        match self {
            Credential::Token(token) => token.to_json(),
            Credential::PersonalAccessToken(token) => Json::text(token.as_str()),
        }
    }

    /// The credential as the text that is kept in the credential file.
    pub fn to_text(&self) -> (text: String)
        ensures
            text@ == credential_text(self@),
    {
        self.to_json().to_text()
    }
}

/// Takes the access token from what was read from the credential file. A
/// file that is not there gives an error that says so.
pub fn load_access_token(read: Result<String, IoError>) -> (r: Result<Token, ZitadelCLIError>)
    ensures
        outcome(r) == access_token_in(read_outcome(read)),
{
    match read {
        Err(failure) => Err(ZitadelCLIError::IO(failure)),
        Ok(text) => match parse(text.as_str()) {
            Err(e) => Err(e),
            Ok(document) => match document.text_field("access_token") {
                Err(e) => Err(e),
                Ok(access_token) => Ok(Token { access_token }),
            },
        },
    }
}

/// Reads the answer of a token endpoint.
pub fn read_token_answer(status: u16, body: String) -> (r: Result<TokenResponse, ZitadelCLIError>)
    ensures
        outcome(r) == token_answer(status, body@),
{
    if status == 200 {
        match parse(body.as_str()) {
            Ok(document) => TokenResponse::from_json(&document),
            Err(e) => Err(e),
        }
    } else if status == 401 {
        Err(ZitadelCLIError::Unauthorized(body))
    } else {
        Err(ZitadelCLIError::UnexpectedStatus { status, body })
    }
}

/// The status of an answer decides what a body can mean: any body with 401
/// says that the credential is not valid, and any body with a status other
/// than 200 and 401 is an unexpected answer that is handed on with its status.
pub proof fn lemma_status_decides(status: u16, body: Seq<char>)
    ensures
        status == 401 ==> token_answer(status, body) == Err::<TokenView, ErrorView>(
            ErrorView::Unauthorized(body),
        ),
        status != 200 && status != 401 ==> token_answer(status, body) == Err::<
            TokenView,
            ErrorView,
        >(ErrorView::UnexpectedStatus { status, body }),
        token_answer(status, body) is Ok ==> status == 200,
{
}

/// The exchange of the client's credentials carries them twice: as fields of
/// the form, and as user and password of its Basic authentication.
pub proof fn lemma_credentials_exchange_is_authenticated(
    token_endpoint: Seq<char>,
    client_id: Seq<char>,
    client_secret: Seq<char>,
    scope: Seq<char>,
)
    ensures
        credentials_exchange(token_endpoint, client_id, client_secret, scope).basic_auth == Some(
            (client_id, client_secret),
        ),
        credentials_exchange(token_endpoint, client_id, client_secret, scope).form.contains(
            ("grant_type"@, "client_credentials"@),
        ),
{
    let form = credentials_exchange(token_endpoint, client_id, client_secret, scope).form;
    assert(form[0] == ("grant_type"@, "client_credentials"@));
}

/// The text that is kept of a token: its three members by their names,
/// in the order of the fields and without spaces, the texts as JSON strings
/// and the number in decimal.
pub proof fn lemma_token_text(token: TokenView)
    ensures
        credential_text(CredentialView::Token(token)) == "{\"access_token\":"@
            + json_string_literal(token.access_token) + ",\"token_type\":"@ + json_string_literal(
            token.token_type,
        ) + ",\"expires_in\":"@ + decimal(token.expires_in as nat) + "}"@,
{
    reveal_strlit("access_token");
    reveal_strlit("token_type");
    reveal_strlit("expires_in");
    reveal_strlit("{\"access_token\":");
    reveal_strlit(",\"token_type\":");
    reveal_strlit(",\"expires_in\":");
    reveal_strlit("\"");
    reveal_strlit(":");
    reveal_strlit(",");
    reveal_strlit("{");
    lemma_plain_text_is_quoted("access_token"@);
    lemma_plain_text_is_quoted("token_type"@);
    lemma_plain_text_is_quoted("expires_in"@);
    reveal_strlit("\"access_token\":");
    reveal_strlit("\"token_type\":");
    reveal_strlit("\"expires_in\":");
    reveal_with_fuel(joined, 4);
    let parts = member_texts(token_tree(token)->Object_0);
    assert(parts[0] =~= "\"access_token\":"@ + json_string_literal(token.access_token));
    assert(parts[1] =~= "\"token_type\":"@ + json_string_literal(token.token_type));
    assert(parts[2] =~= "\"expires_in\":"@ + decimal(token.expires_in as nat));
    assert(credential_text(CredentialView::Token(token)) =~= "{\"access_token\":"@
        + json_string_literal(token.access_token) + ",\"token_type\":"@ + json_string_literal(
        token.token_type,
    ) + ",\"expires_in\":"@ + decimal(token.expires_in as nat) + "}"@);
}

/// The document of a token holds the token: what is written of a token is
/// read back as the same token, and its access token is the one that is
/// loaded.
pub proof fn lemma_token_reads_back(token: TokenView)
    ensures
        token_of(token_tree(token)) == Ok::<TokenView, ErrorView>(token),
        token_tree(token).text_field("access_token"@) == Ok::<Seq<char>, ErrorView>(
            token.access_token,
        ),
{
    reveal_strlit("access_token");
    reveal_strlit("token_type");
    reveal_strlit("expires_in");
    reveal_with_fuel(find_member, 4);
    let members = token_tree(token)->Object_0;
    assert(members.drop_first().drop_first()[0] == members[2]);
    assert("expires_in"@[0] != "token_type"@[0]);
    lemma_decimal_reads_back(token.expires_in as nat);
}

} // verus!
