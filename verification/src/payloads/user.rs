//! Human users.

use crate::error::{ErrorView, ZitadelCLIError};
use crate::json::{member, Json, JsonValue};
use crate::payloads::{
    bool_or_null, first_error, lemma_member_at, lemma_optional_list_reads_back,
    lemma_optional_reads_back, no_object, object_of, optional_bool, optional_bool_json,
    optional_bool_member, optional_payload, optional_payload_json, optional_payload_member,
    optional_payloads, optional_payloads_json, optional_payloads_member, optional_text,
    optional_text_json, optional_text_member, payload_member, payload_or_null,
    payloads_or_null, required_payload, required_text, text_member, text_or_null, Payload,
};
use vstd::prelude::*;

verus! {

/// A human user to add.
#[derive(Debug, Clone, PartialEq, Eq)]
pub struct NewHumanUser {
    /// The identifier to give the user; the provider makes one where it is not set.
    pub user_id: Option<String>,
    /// The name to log in with; the email address where it is not set.
    pub username: Option<String>,
    pub organization: Option<Organization>,
    pub profile: Profile,
    pub email: Email,
    pub phone: Option<Phone>,
    pub metadata: Option<Vec<Metadata>>,
    pub password: Option<Password>,
    pub hashed_password: Option<HashedPassword>,
    pub idp_links: Option<Vec<IDPLink>>,
    /// The secret of a one-time password generator to set up for the user.
    pub totp_secret: Option<String>,
}

impl View for NewHumanUser {
    type V = JsonValue;

    open spec fn view(&self) -> JsonValue {
        JsonValue::Object(
            seq![
                ("userId"@, text_or_null(self.user_id)),
                ("username"@, text_or_null(self.username)),
                ("organization"@, payload_or_null(self.organization)),
                ("profile"@, self.profile@),
                ("email"@, self.email@),
                ("phone"@, payload_or_null(self.phone)),
                ("metadata"@, payloads_or_null(self.metadata)),
                ("password"@, payload_or_null(self.password)),
                ("hashedPassword"@, payload_or_null(self.hashed_password)),
                ("idpLinks"@, payloads_or_null(self.idp_links)),
                ("totpSecret"@, text_or_null(self.totp_secret)),
            ],
        )
    }
}

impl Payload for NewHumanUser {
    open spec fn described(document: JsonValue) -> Result<JsonValue, ErrorView> {
        object_of(
            document,
            seq![
                ("userId"@, optional_text(document, "userId"@)),
                ("username"@, optional_text(document, "username"@)),
                ("organization"@, optional_payload::<Organization>(document, "organization"@)),
                ("profile"@, required_payload::<Profile>(document, "profile"@)),
                ("email"@, required_payload::<Email>(document, "email"@)),
                ("phone"@, optional_payload::<Phone>(document, "phone"@)),
                ("metadata"@, optional_payloads::<Metadata>(document, "metadata"@)),
                ("password"@, optional_payload::<Password>(document, "password"@)),
                (
                    "hashedPassword"@,
                    optional_payload::<HashedPassword>(document, "hashedPassword"@),
                ),
                ("idpLinks"@, optional_payloads::<IDPLink>(document, "idpLinks"@)),
                ("totpSecret"@, optional_text(document, "totpSecret"@)),
            ],
        )
    }

    fn from_json(document: &Json) -> (r: Result<Self, ZitadelCLIError>) {
        proof {
            reveal_with_fuel(first_error, 12);
        }
        if !document.is_object() {
            return Err(no_object());
        }
        let user_id = match optional_text_member(document, "userId") {
            Ok(value) => value,
            Err(e) => return Err(e),
        };
        let username = match optional_text_member(document, "username") {
            Ok(value) => value,
            Err(e) => return Err(e),
        };
        let organization = match optional_payload_member::<Organization>(document, "organization") {
            Ok(value) => value,
            Err(e) => return Err(e),
        };
        let profile = match payload_member::<Profile>(document, "profile") {
            Ok(value) => value,
            Err(e) => return Err(e),
        };
        let email = match payload_member::<Email>(document, "email") {
            Ok(value) => value,
            Err(e) => return Err(e),
        };
        let phone = match optional_payload_member::<Phone>(document, "phone") {
            Ok(value) => value,
            Err(e) => return Err(e),
        };
        let metadata = match optional_payloads_member::<Metadata>(document, "metadata") {
            Ok(value) => value,
            Err(e) => return Err(e),
        };
        let password = match optional_payload_member::<Password>(document, "password") {
            Ok(value) => value,
            Err(e) => return Err(e),
        };
        let hashed_password = match optional_payload_member::<HashedPassword>(
            document,
            "hashedPassword",
        ) {
            Ok(value) => value,
            Err(e) => return Err(e),
        };
        let idp_links = match optional_payloads_member::<IDPLink>(document, "idpLinks") {
            Ok(value) => value,
            Err(e) => return Err(e),
        };
        let totp_secret = match optional_text_member(document, "totpSecret") {
            Ok(value) => value,
            Err(e) => return Err(e),
        };
        let payload = NewHumanUser {
            user_id,
            username,
            organization,
            profile,
            email,
            phone,
            metadata,
            password,
            hashed_password,
            idp_links,
            totp_secret,
        };
        assert(Self::described(document@)->Ok_0->Object_0 =~= payload@->Object_0);
        Ok(payload)
    }

    fn to_json(&self) -> (document: Json) {
        let mut members: Vec<(String, Json)> = Vec::new();
        members.push(member("userId", optional_text_json(&self.user_id)));
        members.push(member("username", optional_text_json(&self.username)));
        members.push(member("organization", optional_payload_json(&self.organization)));
        members.push(member("profile", self.profile.to_json()));
        members.push(member("email", self.email.to_json()));
        members.push(member("phone", optional_payload_json(&self.phone)));
        members.push(member("metadata", optional_payloads_json(&self.metadata)));
        members.push(member("password", optional_payload_json(&self.password)));
        members.push(member("hashedPassword", optional_payload_json(&self.hashed_password)));
        members.push(member("idpLinks", optional_payloads_json(&self.idp_links)));
        members.push(member("totpSecret", optional_text_json(&self.totp_secret)));
        let document = Json::Object(members);
        assert(document@->Object_0 =~= self@->Object_0);
        document
    }

    proof fn lemma_reads_back(&self) {
        reveal_strlit("userId");
        reveal_strlit("username");
        reveal_strlit("organization");
        reveal_strlit("profile");
        reveal_strlit("email");
        reveal_strlit("phone");
        reveal_strlit("metadata");
        reveal_strlit("password");
        reveal_strlit("hashedPassword");
        reveal_strlit("idpLinks");
        reveal_strlit("totpSecret");
        reveal_with_fuel(first_error, 12);
        let members = self@->Object_0;
        assert(members[0].0 == "userId"@);
        assert(members[1].0 == "username"@);
        assert(members[2].0 == "organization"@);
        assert(members[3].0 == "profile"@);
        assert(members[4].0 == "email"@);
        assert(members[5].0 == "phone"@);
        assert(members[6].0 == "metadata"@);
        assert(members[7].0 == "password"@);
        assert(members[8].0 == "hashedPassword"@);
        assert(members[9].0 == "idpLinks"@);
        assert(members[10].0 == "totpSecret"@);
        assert("email"@[0] != "phone"@[0]);
        assert("username"@[0] != "metadata"@[0]);
        assert("username"@[0] != "password"@[0]);
        assert("metadata"@[0] != "password"@[0]);
        assert("username"@[0] != "idpLinks"@[0]);
        assert("metadata"@[0] != "idpLinks"@[0]);
        assert("password"@[0] != "idpLinks"@[0]);
        lemma_member_at(members, 0);
        lemma_member_at(members, 1);
        lemma_member_at(members, 2);
        lemma_member_at(members, 3);
        lemma_member_at(members, 4);
        lemma_member_at(members, 5);
        lemma_member_at(members, 6);
        lemma_member_at(members, 7);
        lemma_member_at(members, 8);
        lemma_member_at(members, 9);
        lemma_member_at(members, 10);
        lemma_optional_reads_back(self.organization);
        self.profile.lemma_reads_back();
        self.email.lemma_reads_back();
        lemma_optional_reads_back(self.phone);
        lemma_optional_list_reads_back(self.metadata);
        lemma_optional_reads_back(self.password);
        lemma_optional_reads_back(self.hashed_password);
        lemma_optional_list_reads_back(self.idp_links);
        assert(Self::described(self@)->Ok_0->Object_0 =~= members);
    }
}

/// A human user as an administrator of a new organization.
#[derive(Debug, Clone, PartialEq, Eq)]
pub struct Human {
    /// The identifier to give the user; the provider makes one where it is not set.
    pub user_id: Option<String>,
    /// The name to log in with; the email address where it is not set.
    pub username: Option<String>,
    pub organization: Option<Organization>,
    pub profile: Profile,
    pub email: Email,
    pub phone: Option<Phone>,
    pub metadata: Option<Vec<Metadata>>,
    pub password: Option<Password>,
    pub hashed_password: Option<HashedPassword>,
    pub idp_links: Option<Vec<IDPLink>>,
    /// The secret of a one-time password generator to set up for the user.
    pub totp_secret: Option<String>,
}

impl View for Human {
    type V = JsonValue;

    open spec fn view(&self) -> JsonValue {
        JsonValue::Object(
            seq![
                ("userId"@, text_or_null(self.user_id)),
                ("username"@, text_or_null(self.username)),
                ("organization"@, payload_or_null(self.organization)),
                ("profile"@, self.profile@),
                ("email"@, self.email@),
                ("phone"@, payload_or_null(self.phone)),
                ("metadata"@, payloads_or_null(self.metadata)),
                ("password"@, payload_or_null(self.password)),
                ("hashedPassword"@, payload_or_null(self.hashed_password)),
                ("idpLinks"@, payloads_or_null(self.idp_links)),
                ("totpSecret"@, text_or_null(self.totp_secret)),
            ],
        )
    }
}

impl Payload for Human {
    open spec fn described(document: JsonValue) -> Result<JsonValue, ErrorView> {
        object_of(
            document,
            seq![
                ("userId"@, optional_text(document, "userId"@)),
                ("username"@, optional_text(document, "username"@)),
                ("organization"@, optional_payload::<Organization>(document, "organization"@)),
                ("profile"@, required_payload::<Profile>(document, "profile"@)),
                ("email"@, required_payload::<Email>(document, "email"@)),
                ("phone"@, optional_payload::<Phone>(document, "phone"@)),
                ("metadata"@, optional_payloads::<Metadata>(document, "metadata"@)),
                ("password"@, optional_payload::<Password>(document, "password"@)),
                (
                    "hashedPassword"@,
                    optional_payload::<HashedPassword>(document, "hashedPassword"@),
                ),
                ("idpLinks"@, optional_payloads::<IDPLink>(document, "idpLinks"@)),
                ("totpSecret"@, optional_text(document, "totpSecret"@)),
            ],
        )
    }

    fn from_json(document: &Json) -> (r: Result<Self, ZitadelCLIError>) {
        proof {
            reveal_with_fuel(first_error, 12);
        }
        if !document.is_object() {
            return Err(no_object());
        }
        let user_id = match optional_text_member(document, "userId") {
            Ok(value) => value,
            Err(e) => return Err(e),
        };
        let username = match optional_text_member(document, "username") {
            Ok(value) => value,
            Err(e) => return Err(e),
        };
        let organization = match optional_payload_member::<Organization>(document, "organization") {
            Ok(value) => value,
            Err(e) => return Err(e),
        };
        let profile = match payload_member::<Profile>(document, "profile") {
            Ok(value) => value,
            Err(e) => return Err(e),
        };
        let email = match payload_member::<Email>(document, "email") {
            Ok(value) => value,
            Err(e) => return Err(e),
        };
        let phone = match optional_payload_member::<Phone>(document, "phone") {
            Ok(value) => value,
            Err(e) => return Err(e),
        };
        let metadata = match optional_payloads_member::<Metadata>(document, "metadata") {
            Ok(value) => value,
            Err(e) => return Err(e),
        };
        let password = match optional_payload_member::<Password>(document, "password") {
            Ok(value) => value,
            Err(e) => return Err(e),
        };
        let hashed_password = match optional_payload_member::<HashedPassword>(
            document,
            "hashedPassword",
        ) {
            Ok(value) => value,
            Err(e) => return Err(e),
        };
        let idp_links = match optional_payloads_member::<IDPLink>(document, "idpLinks") {
            Ok(value) => value,
            Err(e) => return Err(e),
        };
        let totp_secret = match optional_text_member(document, "totpSecret") {
            Ok(value) => value,
            Err(e) => return Err(e),
        };
        let payload = Human {
            user_id,
            username,
            organization,
            profile,
            email,
            phone,
            metadata,
            password,
            hashed_password,
            idp_links,
            totp_secret,
        };
        assert(Self::described(document@)->Ok_0->Object_0 =~= payload@->Object_0);
        Ok(payload)
    }

    fn to_json(&self) -> (document: Json) {
        let mut members: Vec<(String, Json)> = Vec::new();
        members.push(member("userId", optional_text_json(&self.user_id)));
        members.push(member("username", optional_text_json(&self.username)));
        members.push(member("organization", optional_payload_json(&self.organization)));
        members.push(member("profile", self.profile.to_json()));
        members.push(member("email", self.email.to_json()));
        members.push(member("phone", optional_payload_json(&self.phone)));
        members.push(member("metadata", optional_payloads_json(&self.metadata)));
        members.push(member("password", optional_payload_json(&self.password)));
        members.push(member("hashedPassword", optional_payload_json(&self.hashed_password)));
        members.push(member("idpLinks", optional_payloads_json(&self.idp_links)));
        members.push(member("totpSecret", optional_text_json(&self.totp_secret)));
        let document = Json::Object(members);
        assert(document@->Object_0 =~= self@->Object_0);
        document
    }

    proof fn lemma_reads_back(&self) {
        reveal_strlit("userId");
        reveal_strlit("username");
        reveal_strlit("organization");
        reveal_strlit("profile");
        reveal_strlit("email");
        reveal_strlit("phone");
        reveal_strlit("metadata");
        reveal_strlit("password");
        reveal_strlit("hashedPassword");
        reveal_strlit("idpLinks");
        reveal_strlit("totpSecret");
        reveal_with_fuel(first_error, 12);
        let members = self@->Object_0;
        assert(members[0].0 == "userId"@);
        assert(members[1].0 == "username"@);
        assert(members[2].0 == "organization"@);
        assert(members[3].0 == "profile"@);
        assert(members[4].0 == "email"@);
        assert(members[5].0 == "phone"@);
        assert(members[6].0 == "metadata"@);
        assert(members[7].0 == "password"@);
        assert(members[8].0 == "hashedPassword"@);
        assert(members[9].0 == "idpLinks"@);
        assert(members[10].0 == "totpSecret"@);
        assert("email"@[0] != "phone"@[0]);
        assert("username"@[0] != "metadata"@[0]);
        assert("username"@[0] != "password"@[0]);
        assert("metadata"@[0] != "password"@[0]);
        assert("username"@[0] != "idpLinks"@[0]);
        assert("metadata"@[0] != "idpLinks"@[0]);
        assert("password"@[0] != "idpLinks"@[0]);
        lemma_member_at(members, 0);
        lemma_member_at(members, 1);
        lemma_member_at(members, 2);
        lemma_member_at(members, 3);
        lemma_member_at(members, 4);
        lemma_member_at(members, 5);
        lemma_member_at(members, 6);
        lemma_member_at(members, 7);
        lemma_member_at(members, 8);
        lemma_member_at(members, 9);
        lemma_member_at(members, 10);
        lemma_optional_reads_back(self.organization);
        self.profile.lemma_reads_back();
        self.email.lemma_reads_back();
        lemma_optional_reads_back(self.phone);
        lemma_optional_list_reads_back(self.metadata);
        lemma_optional_reads_back(self.password);
        lemma_optional_reads_back(self.hashed_password);
        lemma_optional_list_reads_back(self.idp_links);
        assert(Self::described(self@)->Ok_0->Object_0 =~= members);
    }
}

/// The organization that a user belongs to, by its identifier or by its domain.
#[derive(Debug, Clone, PartialEq, Eq)]
pub struct Organization {
    pub org_id: Option<String>,
    pub org_domain: Option<String>,
}

impl View for Organization {
    type V = JsonValue;

    open spec fn view(&self) -> JsonValue {
        JsonValue::Object(
            seq![
                ("orgId"@, text_or_null(self.org_id)),
                ("orgDomain"@, text_or_null(self.org_domain)),
            ],
        )
    }
}

impl Payload for Organization {
    open spec fn described(document: JsonValue) -> Result<JsonValue, ErrorView> {
        object_of(
            document,
            seq![
                ("orgId"@, optional_text(document, "orgId"@)),
                ("orgDomain"@, optional_text(document, "orgDomain"@)),
            ],
        )
    }

    fn from_json(document: &Json) -> (r: Result<Self, ZitadelCLIError>) {
        proof {
            reveal_with_fuel(first_error, 3);
        }
        if !document.is_object() {
            return Err(no_object());
        }
        let org_id = match optional_text_member(document, "orgId") {
            Ok(value) => value,
            Err(e) => return Err(e),
        };
        let org_domain = match optional_text_member(document, "orgDomain") {
            Ok(value) => value,
            Err(e) => return Err(e),
        };
        let payload = Organization { org_id, org_domain };
        assert(Self::described(document@)->Ok_0->Object_0 =~= payload@->Object_0);
        Ok(payload)
    }

    fn to_json(&self) -> (document: Json) {
        let mut members: Vec<(String, Json)> = Vec::new();
        members.push(member("orgId", optional_text_json(&self.org_id)));
        members.push(member("orgDomain", optional_text_json(&self.org_domain)));
        let document = Json::Object(members);
        assert(document@->Object_0 =~= self@->Object_0);
        document
    }

    proof fn lemma_reads_back(&self) {
        reveal_strlit("orgId");
        reveal_strlit("orgDomain");
        reveal_with_fuel(first_error, 3);
        let members = self@->Object_0;
        assert(members[0].0 == "orgId"@);
        assert(members[1].0 == "orgDomain"@);
        lemma_member_at(members, 0);
        lemma_member_at(members, 1);
        assert(Self::described(self@)->Ok_0->Object_0 =~= members);
    }
}

/// The names of a user.
#[derive(Debug, Clone, PartialEq, Eq)]
pub struct Profile {
    pub given_name: String,
    pub family_name: String,
    pub nick_name: Option<String>,
    pub display_name: Option<String>,
    pub preferred_language: Option<String>,
    pub gender: Option<String>,
}

impl View for Profile {
    type V = JsonValue;

    open spec fn view(&self) -> JsonValue {
        JsonValue::Object(
            seq![
                ("givenName"@, JsonValue::Text(self.given_name@)),
                ("familyName"@, JsonValue::Text(self.family_name@)),
                ("nickName"@, text_or_null(self.nick_name)),
                ("displayName"@, text_or_null(self.display_name)),
                ("preferredLanguage"@, text_or_null(self.preferred_language)),
                ("gender"@, text_or_null(self.gender)),
            ],
        )
    }
}

impl Payload for Profile {
    open spec fn described(document: JsonValue) -> Result<JsonValue, ErrorView> {
        object_of(
            document,
            seq![
                ("givenName"@, required_text(document, "givenName"@)),
                ("familyName"@, required_text(document, "familyName"@)),
                ("nickName"@, optional_text(document, "nickName"@)),
                ("displayName"@, optional_text(document, "displayName"@)),
                ("preferredLanguage"@, optional_text(document, "preferredLanguage"@)),
                ("gender"@, optional_text(document, "gender"@)),
            ],
        )
    }

    fn from_json(document: &Json) -> (r: Result<Self, ZitadelCLIError>) {
        proof {
            reveal_with_fuel(first_error, 7);
        }
        if !document.is_object() {
            return Err(no_object());
        }
        let given_name = match text_member(document, "givenName") {
            Ok(value) => value,
            Err(e) => return Err(e),
        };
        let family_name = match text_member(document, "familyName") {
            Ok(value) => value,
            Err(e) => return Err(e),
        };
        let nick_name = match optional_text_member(document, "nickName") {
            Ok(value) => value,
            Err(e) => return Err(e),
        };
        let display_name = match optional_text_member(document, "displayName") {
            Ok(value) => value,
            Err(e) => return Err(e),
        };
        let preferred_language = match optional_text_member(document, "preferredLanguage") {
            Ok(value) => value,
            Err(e) => return Err(e),
        };
        let gender = match optional_text_member(document, "gender") {
            Ok(value) => value,
            Err(e) => return Err(e),
        };
        let payload = Profile {
            given_name,
            family_name,
            nick_name,
            display_name,
            preferred_language,
            gender,
        };
        assert(Self::described(document@)->Ok_0->Object_0 =~= payload@->Object_0);
        Ok(payload)
    }

    fn to_json(&self) -> (document: Json) {
        let mut members: Vec<(String, Json)> = Vec::new();
        members.push(member("givenName", Json::text(self.given_name.as_str())));
        members.push(member("familyName", Json::text(self.family_name.as_str())));
        members.push(member("nickName", optional_text_json(&self.nick_name)));
        members.push(member("displayName", optional_text_json(&self.display_name)));
        members.push(member("preferredLanguage", optional_text_json(&self.preferred_language)));
        members.push(member("gender", optional_text_json(&self.gender)));
        let document = Json::Object(members);
        assert(document@->Object_0 =~= self@->Object_0);
        document
    }

    proof fn lemma_reads_back(&self) {
        reveal_strlit("givenName");
        reveal_strlit("familyName");
        reveal_strlit("nickName");
        reveal_strlit("displayName");
        reveal_strlit("preferredLanguage");
        reveal_strlit("gender");
        reveal_with_fuel(first_error, 7);
        let members = self@->Object_0;
        assert(members[0].0 == "givenName"@);
        assert(members[1].0 == "familyName"@);
        assert(members[2].0 == "nickName"@);
        assert(members[3].0 == "displayName"@);
        assert(members[4].0 == "preferredLanguage"@);
        assert(members[5].0 == "gender"@);
        lemma_member_at(members, 0);
        lemma_member_at(members, 1);
        lemma_member_at(members, 2);
        lemma_member_at(members, 3);
        lemma_member_at(members, 4);
        lemma_member_at(members, 5);
        assert(Self::described(self@)->Ok_0->Object_0 =~= members);
    }
}

/// The email address of a user, and how it is verified.
#[derive(Debug, Clone, PartialEq, Eq)]
pub struct Email {
    pub email: String,
    pub send_code: Option<SendCode>,
    pub return_code: Option<ReturnCode>,
    pub is_verified: Option<bool>,
}

impl View for Email {
    type V = JsonValue;

    open spec fn view(&self) -> JsonValue {
        JsonValue::Object(
            seq![
                ("email"@, JsonValue::Text(self.email@)),
                ("sendCode"@, payload_or_null(self.send_code)),
                ("returnCode"@, payload_or_null(self.return_code)),
                ("isVerified"@, bool_or_null(self.is_verified)),
            ],
        )
    }
}

impl Payload for Email {
    open spec fn described(document: JsonValue) -> Result<JsonValue, ErrorView> {
        object_of(
            document,
            seq![
                ("email"@, required_text(document, "email"@)),
                ("sendCode"@, optional_payload::<SendCode>(document, "sendCode"@)),
                ("returnCode"@, optional_payload::<ReturnCode>(document, "returnCode"@)),
                ("isVerified"@, optional_bool(document, "isVerified"@)),
            ],
        )
    }

    fn from_json(document: &Json) -> (r: Result<Self, ZitadelCLIError>) {
        proof {
            reveal_with_fuel(first_error, 5);
        }
        if !document.is_object() {
            return Err(no_object());
        }
        let email = match text_member(document, "email") {
            Ok(value) => value,
            Err(e) => return Err(e),
        };
        let send_code = match optional_payload_member::<SendCode>(document, "sendCode") {
            Ok(value) => value,
            Err(e) => return Err(e),
        };
        let return_code = match optional_payload_member::<ReturnCode>(document, "returnCode") {
            Ok(value) => value,
            Err(e) => return Err(e),
        };
        let is_verified = match optional_bool_member(document, "isVerified") {
            Ok(value) => value,
            Err(e) => return Err(e),
        };
        let payload = Email { email, send_code, return_code, is_verified };
        assert(Self::described(document@)->Ok_0->Object_0 =~= payload@->Object_0);
        Ok(payload)
    }

    fn to_json(&self) -> (document: Json) {
        let mut members: Vec<(String, Json)> = Vec::new();
        members.push(member("email", Json::text(self.email.as_str())));
        members.push(member("sendCode", optional_payload_json(&self.send_code)));
        members.push(member("returnCode", optional_payload_json(&self.return_code)));
        members.push(member("isVerified", optional_bool_json(&self.is_verified)));
        let document = Json::Object(members);
        assert(document@->Object_0 =~= self@->Object_0);
        document
    }

    proof fn lemma_reads_back(&self) {
        reveal_strlit("email");
        reveal_strlit("sendCode");
        reveal_strlit("returnCode");
        reveal_strlit("isVerified");
        reveal_with_fuel(first_error, 5);
        let members = self@->Object_0;
        assert(members[0].0 == "email"@);
        assert(members[1].0 == "sendCode"@);
        assert(members[2].0 == "returnCode"@);
        assert(members[3].0 == "isVerified"@);
        assert("returnCode"@[0] != "isVerified"@[0]);
        lemma_member_at(members, 0);
        lemma_member_at(members, 1);
        lemma_member_at(members, 2);
        lemma_member_at(members, 3);
        lemma_optional_reads_back(self.send_code);
        lemma_optional_reads_back(self.return_code);
        assert(Self::described(self@)->Ok_0->Object_0 =~= members);
    }
}

/// Asks the provider to send the verification code to the user.
#[derive(Debug, Clone, PartialEq, Eq)]
pub struct SendCode {
    /// The link that the message holds, with places for the code and the user.
    pub url_template: Option<String>,
}

impl View for SendCode {
    type V = JsonValue;

    open spec fn view(&self) -> JsonValue {
        JsonValue::Object(
            seq![
                ("urlTemplate"@, text_or_null(self.url_template)),
            ],
        )
    }
}

impl Payload for SendCode {
    open spec fn described(document: JsonValue) -> Result<JsonValue, ErrorView> {
        object_of(
            document,
            seq![
                ("urlTemplate"@, optional_text(document, "urlTemplate"@)),
            ],
        )
    }

    fn from_json(document: &Json) -> (r: Result<Self, ZitadelCLIError>) {
        proof {
            reveal_with_fuel(first_error, 2);
        }
        if !document.is_object() {
            return Err(no_object());
        }
        let url_template = match optional_text_member(document, "urlTemplate") {
            Ok(value) => value,
            Err(e) => return Err(e),
        };
        let payload = SendCode { url_template };
        assert(Self::described(document@)->Ok_0->Object_0 =~= payload@->Object_0);
        Ok(payload)
    }

    fn to_json(&self) -> (document: Json) {
        let mut members: Vec<(String, Json)> = Vec::new();
        members.push(member("urlTemplate", optional_text_json(&self.url_template)));
        let document = Json::Object(members);
        assert(document@->Object_0 =~= self@->Object_0);
        document
    }

    proof fn lemma_reads_back(&self) {
        reveal_strlit("urlTemplate");
        reveal_with_fuel(first_error, 2);
        let members = self@->Object_0;
        assert(members[0].0 == "urlTemplate"@);
        lemma_member_at(members, 0);
        assert(Self::described(self@)->Ok_0->Object_0 =~= members);
    }
}

/// Asks the provider to hand the verification code back in its answer.
#[derive(Debug, Clone, PartialEq, Eq)]
pub struct ReturnCode {}

impl View for ReturnCode {
    type V = JsonValue;

    open spec fn view(&self) -> JsonValue {
        JsonValue::Object(Seq::empty())
    }
}

impl Payload for ReturnCode {
    open spec fn described(document: JsonValue) -> Result<JsonValue, ErrorView> {
        object_of(document, Seq::empty())
    }

    fn from_json(document: &Json) -> (r: Result<Self, ZitadelCLIError>) {
        proof {
            reveal_with_fuel(first_error, 1);
        }
        if !document.is_object() {
            return Err(no_object());
        }
        let payload = ReturnCode {};
        assert(Self::described(document@)->Ok_0->Object_0 =~= payload@->Object_0);
        Ok(payload)
    }

    fn to_json(&self) -> (document: Json) {
        let members: Vec<(String, Json)> = Vec::new();
        let document = Json::Object(members);
        assert(document@->Object_0 =~= self@->Object_0);
        document
    }

    proof fn lemma_reads_back(&self) {
        reveal_with_fuel(first_error, 1);
        let members = self@->Object_0;
        assert(Self::described(self@)->Ok_0->Object_0 =~= members);
    }
}

/// The phone number of a user, and how it is verified.
#[derive(Debug, Clone, PartialEq, Eq)]
pub struct Phone {
    pub phone: Option<String>,
    pub send_code: Option<SendCode>,
    pub return_code: Option<ReturnCode>,
    pub is_verified: Option<bool>,
}

impl View for Phone {
    type V = JsonValue;

    open spec fn view(&self) -> JsonValue {
        JsonValue::Object(
            seq![
                ("phone"@, text_or_null(self.phone)),
                ("sendCode"@, payload_or_null(self.send_code)),
                ("returnCode"@, payload_or_null(self.return_code)),
                ("isVerified"@, bool_or_null(self.is_verified)),
            ],
        )
    }
}

impl Payload for Phone {
    open spec fn described(document: JsonValue) -> Result<JsonValue, ErrorView> {
        object_of(
            document,
            seq![
                ("phone"@, optional_text(document, "phone"@)),
                ("sendCode"@, optional_payload::<SendCode>(document, "sendCode"@)),
                ("returnCode"@, optional_payload::<ReturnCode>(document, "returnCode"@)),
                ("isVerified"@, optional_bool(document, "isVerified"@)),
            ],
        )
    }

    fn from_json(document: &Json) -> (r: Result<Self, ZitadelCLIError>) {
        proof {
            reveal_with_fuel(first_error, 5);
        }
        if !document.is_object() {
            return Err(no_object());
        }
        let phone = match optional_text_member(document, "phone") {
            Ok(value) => value,
            Err(e) => return Err(e),
        };
        let send_code = match optional_payload_member::<SendCode>(document, "sendCode") {
            Ok(value) => value,
            Err(e) => return Err(e),
        };
        let return_code = match optional_payload_member::<ReturnCode>(document, "returnCode") {
            Ok(value) => value,
            Err(e) => return Err(e),
        };
        let is_verified = match optional_bool_member(document, "isVerified") {
            Ok(value) => value,
            Err(e) => return Err(e),
        };
        let payload = Phone { phone, send_code, return_code, is_verified };
        assert(Self::described(document@)->Ok_0->Object_0 =~= payload@->Object_0);
        Ok(payload)
    }

    fn to_json(&self) -> (document: Json) {
        let mut members: Vec<(String, Json)> = Vec::new();
        members.push(member("phone", optional_text_json(&self.phone)));
        members.push(member("sendCode", optional_payload_json(&self.send_code)));
        members.push(member("returnCode", optional_payload_json(&self.return_code)));
        members.push(member("isVerified", optional_bool_json(&self.is_verified)));
        let document = Json::Object(members);
        assert(document@->Object_0 =~= self@->Object_0);
        document
    }

    proof fn lemma_reads_back(&self) {
        reveal_strlit("phone");
        reveal_strlit("sendCode");
        reveal_strlit("returnCode");
        reveal_strlit("isVerified");
        reveal_with_fuel(first_error, 5);
        let members = self@->Object_0;
        assert(members[0].0 == "phone"@);
        assert(members[1].0 == "sendCode"@);
        assert(members[2].0 == "returnCode"@);
        assert(members[3].0 == "isVerified"@);
        assert("returnCode"@[0] != "isVerified"@[0]);
        lemma_member_at(members, 0);
        lemma_member_at(members, 1);
        lemma_member_at(members, 2);
        lemma_member_at(members, 3);
        lemma_optional_reads_back(self.send_code);
        lemma_optional_reads_back(self.return_code);
        assert(Self::described(self@)->Ok_0->Object_0 =~= members);
    }
}

/// A piece of metadata of a user.
#[derive(Debug, Clone, PartialEq, Eq)]
pub struct Metadata {
    pub key: String,
    pub value: String,
}

impl View for Metadata {
    type V = JsonValue;

    open spec fn view(&self) -> JsonValue {
        JsonValue::Object(
            seq![
                ("key"@, JsonValue::Text(self.key@)),
                ("value"@, JsonValue::Text(self.value@)),
            ],
        )
    }
}

impl Payload for Metadata {
    open spec fn described(document: JsonValue) -> Result<JsonValue, ErrorView> {
        object_of(
            document,
            seq![
                ("key"@, required_text(document, "key"@)),
                ("value"@, required_text(document, "value"@)),
            ],
        )
    }

    fn from_json(document: &Json) -> (r: Result<Self, ZitadelCLIError>) {
        proof {
            reveal_with_fuel(first_error, 3);
        }
        if !document.is_object() {
            return Err(no_object());
        }
        let key = match text_member(document, "key") {
            Ok(value) => value,
            Err(e) => return Err(e),
        };
        let value = match text_member(document, "value") {
            Ok(value) => value,
            Err(e) => return Err(e),
        };
        let payload = Metadata { key, value };
        assert(Self::described(document@)->Ok_0->Object_0 =~= payload@->Object_0);
        Ok(payload)
    }

    fn to_json(&self) -> (document: Json) {
        let mut members: Vec<(String, Json)> = Vec::new();
        members.push(member("key", Json::text(self.key.as_str())));
        members.push(member("value", Json::text(self.value.as_str())));
        let document = Json::Object(members);
        assert(document@->Object_0 =~= self@->Object_0);
        document
    }

    proof fn lemma_reads_back(&self) {
        reveal_strlit("key");
        reveal_strlit("value");
        reveal_with_fuel(first_error, 3);
        let members = self@->Object_0;
        assert(members[0].0 == "key"@);
        assert(members[1].0 == "value"@);
        lemma_member_at(members, 0);
        lemma_member_at(members, 1);
        assert(Self::described(self@)->Ok_0->Object_0 =~= members);
    }
}

/// The password of a user, in the clear.
#[derive(Debug, Clone, PartialEq, Eq)]
pub struct Password {
    pub password: String,
    /// Whether the user has to change it at the first login.
    pub change_required: Option<bool>,
}

impl View for Password {
    type V = JsonValue;

    open spec fn view(&self) -> JsonValue {
        JsonValue::Object(
            seq![
                ("password"@, JsonValue::Text(self.password@)),
                ("changeRequired"@, bool_or_null(self.change_required)),
            ],
        )
    }
}

impl Payload for Password {
    open spec fn described(document: JsonValue) -> Result<JsonValue, ErrorView> {
        object_of(
            document,
            seq![
                ("password"@, required_text(document, "password"@)),
                ("changeRequired"@, optional_bool(document, "changeRequired"@)),
            ],
        )
    }

    fn from_json(document: &Json) -> (r: Result<Self, ZitadelCLIError>) {
        proof {
            reveal_with_fuel(first_error, 3);
        }
        if !document.is_object() {
            return Err(no_object());
        }
        let password = match text_member(document, "password") {
            Ok(value) => value,
            Err(e) => return Err(e),
        };
        let change_required = match optional_bool_member(document, "changeRequired") {
            Ok(value) => value,
            Err(e) => return Err(e),
        };
        let payload = Password { password, change_required };
        assert(Self::described(document@)->Ok_0->Object_0 =~= payload@->Object_0);
        Ok(payload)
    }

    fn to_json(&self) -> (document: Json) {
        let mut members: Vec<(String, Json)> = Vec::new();
        members.push(member("password", Json::text(self.password.as_str())));
        members.push(member("changeRequired", optional_bool_json(&self.change_required)));
        let document = Json::Object(members);
        assert(document@->Object_0 =~= self@->Object_0);
        document
    }

    proof fn lemma_reads_back(&self) {
        reveal_strlit("password");
        reveal_strlit("changeRequired");
        reveal_with_fuel(first_error, 3);
        let members = self@->Object_0;
        assert(members[0].0 == "password"@);
        assert(members[1].0 == "changeRequired"@);
        lemma_member_at(members, 0);
        lemma_member_at(members, 1);
        assert(Self::described(self@)->Ok_0->Object_0 =~= members);
    }
}

/// The password of a user, hashed.
#[derive(Debug, Clone, PartialEq, Eq)]
pub struct HashedPassword {
    pub hash: String,
    /// Whether the user has to change it at the first login.
    pub change_required: Option<bool>,
}

impl View for HashedPassword {
    type V = JsonValue;

    open spec fn view(&self) -> JsonValue {
        JsonValue::Object(
            seq![
                ("hash"@, JsonValue::Text(self.hash@)),
                ("changeRequired"@, bool_or_null(self.change_required)),
            ],
        )
    }
}

impl Payload for HashedPassword {
    open spec fn described(document: JsonValue) -> Result<JsonValue, ErrorView> {
        object_of(
            document,
            seq![
                ("hash"@, required_text(document, "hash"@)),
                ("changeRequired"@, optional_bool(document, "changeRequired"@)),
            ],
        )
    }

    fn from_json(document: &Json) -> (r: Result<Self, ZitadelCLIError>) {
        proof {
            reveal_with_fuel(first_error, 3);
        }
        if !document.is_object() {
            return Err(no_object());
        }
        let hash = match text_member(document, "hash") {
            Ok(value) => value,
            Err(e) => return Err(e),
        };
        let change_required = match optional_bool_member(document, "changeRequired") {
            Ok(value) => value,
            Err(e) => return Err(e),
        };
        let payload = HashedPassword { hash, change_required };
        assert(Self::described(document@)->Ok_0->Object_0 =~= payload@->Object_0);
        Ok(payload)
    }

    fn to_json(&self) -> (document: Json) {
        let mut members: Vec<(String, Json)> = Vec::new();
        members.push(member("hash", Json::text(self.hash.as_str())));
        members.push(member("changeRequired", optional_bool_json(&self.change_required)));
        let document = Json::Object(members);
        assert(document@->Object_0 =~= self@->Object_0);
        document
    }

    proof fn lemma_reads_back(&self) {
        reveal_strlit("hash");
        reveal_strlit("changeRequired");
        reveal_with_fuel(first_error, 3);
        let members = self@->Object_0;
        assert(members[0].0 == "hash"@);
        assert(members[1].0 == "changeRequired"@);
        lemma_member_at(members, 0);
        lemma_member_at(members, 1);
        assert(Self::described(self@)->Ok_0->Object_0 =~= members);
    }
}

/// The account of a user at an identity provider.
#[derive(Debug, Clone, PartialEq, Eq)]
pub struct IDPLink {
    pub idp_id: Option<String>,
    pub user_id: Option<String>,
    pub user_name: Option<String>,
}

impl View for IDPLink {
    type V = JsonValue;

    open spec fn view(&self) -> JsonValue {
        JsonValue::Object(
            seq![
                ("idpId"@, text_or_null(self.idp_id)),
                ("userId"@, text_or_null(self.user_id)),
                ("userName"@, text_or_null(self.user_name)),
            ],
        )
    }
}

impl Payload for IDPLink {
    open spec fn described(document: JsonValue) -> Result<JsonValue, ErrorView> {
        object_of(
            document,
            seq![
                ("idpId"@, optional_text(document, "idpId"@)),
                ("userId"@, optional_text(document, "userId"@)),
                ("userName"@, optional_text(document, "userName"@)),
            ],
        )
    }

    fn from_json(document: &Json) -> (r: Result<Self, ZitadelCLIError>) {
        proof {
            reveal_with_fuel(first_error, 4);
        }
        if !document.is_object() {
            return Err(no_object());
        }
        let idp_id = match optional_text_member(document, "idpId") {
            Ok(value) => value,
            Err(e) => return Err(e),
        };
        let user_id = match optional_text_member(document, "userId") {
            Ok(value) => value,
            Err(e) => return Err(e),
        };
        let user_name = match optional_text_member(document, "userName") {
            Ok(value) => value,
            Err(e) => return Err(e),
        };
        let payload = IDPLink { idp_id, user_id, user_name };
        assert(Self::described(document@)->Ok_0->Object_0 =~= payload@->Object_0);
        Ok(payload)
    }

    fn to_json(&self) -> (document: Json) {
        let mut members: Vec<(String, Json)> = Vec::new();
        members.push(member("idpId", optional_text_json(&self.idp_id)));
        members.push(member("userId", optional_text_json(&self.user_id)));
        members.push(member("userName", optional_text_json(&self.user_name)));
        let document = Json::Object(members);
        assert(document@->Object_0 =~= self@->Object_0);
        document
    }

    proof fn lemma_reads_back(&self) {
        reveal_strlit("idpId");
        reveal_strlit("userId");
        reveal_strlit("userName");
        reveal_with_fuel(first_error, 4);
        let members = self@->Object_0;
        assert(members[0].0 == "idpId"@);
        assert(members[1].0 == "userId"@);
        assert(members[2].0 == "userName"@);
        lemma_member_at(members, 0);
        lemma_member_at(members, 1);
        lemma_member_at(members, 2);
        assert(Self::described(self@)->Ok_0->Object_0 =~= members);
    }
}

} // verus!
