//! Organizations.

use crate::error::{ErrorView, ZitadelCLIError};
use crate::json::{member, Json, JsonValue};
use crate::payloads::user::Human;
use crate::payloads::{
    first_error, lemma_member_at, lemma_optional_list_reads_back, lemma_optional_reads_back,
    no_object, object_of, optional_payload, optional_payload_json, optional_payload_member,
    optional_payloads, optional_payloads_json, optional_payloads_member, optional_text,
    optional_text_json, optional_text_member, optional_texts, optional_texts_json,
    optional_texts_member, payload_or_null, payloads_or_null, required_text, text_member,
    text_or_null, texts_or_null, Payload,
};
use vstd::prelude::*;

verus! {

/// An organization to add.
#[derive(Debug, Clone, PartialEq, Eq)]
pub struct NewOrganization {
    pub name: String,
    pub admins: Option<Vec<Admin>>,
}

impl View for NewOrganization {
    type V = JsonValue;

    open spec fn view(&self) -> JsonValue {
        JsonValue::Object(
            seq![
                ("name"@, JsonValue::Text(self.name@)),
                ("admins"@, payloads_or_null(self.admins)),
            ],
        )
    }
}

impl Payload for NewOrganization {
    open spec fn described(document: JsonValue) -> Result<JsonValue, ErrorView> {
        object_of(
            document,
            seq![
                ("name"@, required_text(document, "name"@)),
                ("admins"@, optional_payloads::<Admin>(document, "admins"@)),
            ],
        )
    }

    fn from_json(document: &Json) -> (r: Result<Self, ZitadelCLIError>) {
        proof {
            reveal_with_fuel(first_error, 3);
        }
        if !document.is_object() {
            return Err(no_object());
        }
        let name = match text_member(document, "name") {
            Ok(value) => value,
            Err(e) => return Err(e),
        };
        let admins = match optional_payloads_member::<Admin>(document, "admins") {
            Ok(value) => value,
            Err(e) => return Err(e),
        };
        let payload = NewOrganization { name, admins };
        assert(Self::described(document@)->Ok_0->Object_0 =~= payload@->Object_0);
        Ok(payload)
    }

    fn to_json(&self) -> (document: Json) {
        let mut members: Vec<(String, Json)> = Vec::new();
        members.push(member("name", Json::text(self.name.as_str())));
        members.push(member("admins", optional_payloads_json(&self.admins)));
        let document = Json::Object(members);
        assert(document@->Object_0 =~= self@->Object_0);
        document
    }

    proof fn lemma_reads_back(&self) {
        reveal_strlit("name");
        reveal_strlit("admins");
        reveal_with_fuel(first_error, 3);
        let members = self@->Object_0;
        assert(members[0].0 == "name"@);
        assert(members[1].0 == "admins"@);
        lemma_member_at(members, 0);
        lemma_member_at(members, 1);
        lemma_optional_list_reads_back(self.admins);
        assert(Self::described(self@)->Ok_0->Object_0 =~= members);
    }
}

/// An administrator of a new organization: a user that exists, by its identifier, or a
/// human user to add with the organization.
#[derive(Debug, Clone, PartialEq, Eq)]
pub struct Admin {
    pub user_id: Option<String>,
    pub human: Option<Human>,
    pub roles: Option<Vec<String>>,
}

impl View for Admin {
    type V = JsonValue;

    open spec fn view(&self) -> JsonValue {
        JsonValue::Object(
            seq![
                ("userId"@, text_or_null(self.user_id)),
                ("human"@, payload_or_null(self.human)),
                ("roles"@, texts_or_null(self.roles)),
            ],
        )
    }
}

impl Payload for Admin {
    open spec fn described(document: JsonValue) -> Result<JsonValue, ErrorView> {
        object_of(
            document,
            seq![
                ("userId"@, optional_text(document, "userId"@)),
                ("human"@, optional_payload::<Human>(document, "human"@)),
                ("roles"@, optional_texts(document, "roles"@)),
            ],
        )
    }

    fn from_json(document: &Json) -> (r: Result<Self, ZitadelCLIError>) {
        proof {
            reveal_with_fuel(first_error, 4);
        }
        if !document.is_object() {
            return Err(no_object());
        }
        let user_id = match optional_text_member(document, "userId") {
            Ok(value) => value,
            Err(e) => return Err(e),
        };
        let human = match optional_payload_member::<Human>(document, "human") {
            Ok(value) => value,
            Err(e) => return Err(e),
        };
        let roles = match optional_texts_member(document, "roles") {
            Ok(value) => value,
            Err(e) => return Err(e),
        };
        let payload = Admin { user_id, human, roles };
        assert(Self::described(document@)->Ok_0->Object_0 =~= payload@->Object_0);
        Ok(payload)
    }

    fn to_json(&self) -> (document: Json) {
        let mut members: Vec<(String, Json)> = Vec::new();
        members.push(member("userId", optional_text_json(&self.user_id)));
        members.push(member("human", optional_payload_json(&self.human)));
        members.push(member("roles", optional_texts_json(&self.roles)));
        let document = Json::Object(members);
        assert(document@->Object_0 =~= self@->Object_0);
        document
    }

    proof fn lemma_reads_back(&self) {
        reveal_strlit("userId");
        reveal_strlit("human");
        reveal_strlit("roles");
        reveal_with_fuel(first_error, 4);
        let members = self@->Object_0;
        assert(members[0].0 == "userId"@);
        assert(members[1].0 == "human"@);
        assert(members[2].0 == "roles"@);
        assert("human"@[0] != "roles"@[0]);
        lemma_member_at(members, 0);
        lemma_member_at(members, 1);
        lemma_member_at(members, 2);
        lemma_optional_reads_back(self.human);
        assert(Self::described(self@)->Ok_0->Object_0 =~= members);
    }
}

} // verus!
