//! Google as an identity provider.

use crate::error::{ErrorView, ZitadelCLIError};
use crate::json::{member, Json, JsonValue};
use crate::payloads::{
    bool_or_null, first_error, lemma_member_at, lemma_optional_reads_back, no_object,
    object_of, optional_bool, optional_bool_json, optional_bool_member, optional_payload,
    optional_payload_json, optional_payload_member, optional_text, optional_text_json,
    optional_text_member, optional_texts, optional_texts_json, optional_texts_member,
    payload_or_null, text_or_null, texts_or_null, Payload,
};
use vstd::prelude::*;

verus! {

/// A Google identity provider to add.
#[derive(Debug, Clone, PartialEq, Eq)]
pub struct NewGoogleIdp {
    pub name: Option<String>,
    pub client_id: Option<String>,
    pub client_secret: Option<String>,
    pub scopes: Option<Vec<String>>,
    pub provider_options: Option<NewGoogleIdpProviderOptions>,
}

impl View for NewGoogleIdp {
    type V = JsonValue;

    open spec fn view(&self) -> JsonValue {
        JsonValue::Object(
            seq![
                ("name"@, text_or_null(self.name)),
                ("clientId"@, text_or_null(self.client_id)),
                ("clientSecret"@, text_or_null(self.client_secret)),
                ("scopes"@, texts_or_null(self.scopes)),
                ("providerOptions"@, payload_or_null(self.provider_options)),
            ],
        )
    }
}

impl Payload for NewGoogleIdp {
    open spec fn described(document: JsonValue) -> Result<JsonValue, ErrorView> {
        object_of(
            document,
            seq![
                ("name"@, optional_text(document, "name"@)),
                ("clientId"@, optional_text(document, "clientId"@)),
                ("clientSecret"@, optional_text(document, "clientSecret"@)),
                ("scopes"@, optional_texts(document, "scopes"@)),
                (
                    "providerOptions"@,
                    optional_payload::<NewGoogleIdpProviderOptions>(document, "providerOptions"@),
                ),
            ],
        )
    }

    fn from_json(document: &Json) -> (r: Result<Self, ZitadelCLIError>) {
        proof {
            reveal_with_fuel(first_error, 6);
        }
        if !document.is_object() {
            return Err(no_object());
        }
        let name = match optional_text_member(document, "name") {
            Ok(value) => value,
            Err(e) => return Err(e),
        };
        let client_id = match optional_text_member(document, "clientId") {
            Ok(value) => value,
            Err(e) => return Err(e),
        };
        let client_secret = match optional_text_member(document, "clientSecret") {
            Ok(value) => value,
            Err(e) => return Err(e),
        };
        let scopes = match optional_texts_member(document, "scopes") {
            Ok(value) => value,
            Err(e) => return Err(e),
        };
        let provider_options = match optional_payload_member::<NewGoogleIdpProviderOptions>(
            document,
            "providerOptions",
        ) {
            Ok(value) => value,
            Err(e) => return Err(e),
        };
        let payload = NewGoogleIdp { name, client_id, client_secret, scopes, provider_options };
        assert(Self::described(document@)->Ok_0->Object_0 =~= payload@->Object_0);
        Ok(payload)
    }

    fn to_json(&self) -> (document: Json) {
        let mut members: Vec<(String, Json)> = Vec::new();
        members.push(member("name", optional_text_json(&self.name)));
        members.push(member("clientId", optional_text_json(&self.client_id)));
        members.push(member("clientSecret", optional_text_json(&self.client_secret)));
        members.push(member("scopes", optional_texts_json(&self.scopes)));
        members.push(member("providerOptions", optional_payload_json(&self.provider_options)));
        let document = Json::Object(members);
        assert(document@->Object_0 =~= self@->Object_0);
        document
    }

    proof fn lemma_reads_back(&self) {
        reveal_strlit("name");
        reveal_strlit("clientId");
        reveal_strlit("clientSecret");
        reveal_strlit("scopes");
        reveal_strlit("providerOptions");
        reveal_with_fuel(first_error, 6);
        let members = self@->Object_0;
        assert(members[0].0 == "name"@);
        assert(members[1].0 == "clientId"@);
        assert(members[2].0 == "clientSecret"@);
        assert(members[3].0 == "scopes"@);
        assert(members[4].0 == "providerOptions"@);
        lemma_member_at(members, 0);
        lemma_member_at(members, 1);
        lemma_member_at(members, 2);
        lemma_member_at(members, 3);
        lemma_member_at(members, 4);
        lemma_optional_reads_back(self.provider_options);
        assert(Self::described(self@)->Ok_0->Object_0 =~= members);
    }
}

/// What users of a Google identity provider may do.
#[derive(Debug, Clone, PartialEq, Eq)]
pub struct NewGoogleIdpProviderOptions {
    pub is_linking_allowed: Option<bool>,
    pub is_creation_allowed: Option<bool>,
    pub is_auto_creation: Option<bool>,
    pub is_auto_update: Option<bool>,
    pub auto_linking: Option<String>,
}

impl View for NewGoogleIdpProviderOptions {
    type V = JsonValue;

    open spec fn view(&self) -> JsonValue {
        JsonValue::Object(
            seq![
                ("isLinkingAllowed"@, bool_or_null(self.is_linking_allowed)),
                ("isCreationAllowed"@, bool_or_null(self.is_creation_allowed)),
                ("isAutoCreation"@, bool_or_null(self.is_auto_creation)),
                ("isAutoUpdate"@, bool_or_null(self.is_auto_update)),
                ("autoLinking"@, text_or_null(self.auto_linking)),
            ],
        )
    }
}

impl Payload for NewGoogleIdpProviderOptions {
    open spec fn described(document: JsonValue) -> Result<JsonValue, ErrorView> {
        object_of(
            document,
            seq![
                ("isLinkingAllowed"@, optional_bool(document, "isLinkingAllowed"@)),
                ("isCreationAllowed"@, optional_bool(document, "isCreationAllowed"@)),
                ("isAutoCreation"@, optional_bool(document, "isAutoCreation"@)),
                ("isAutoUpdate"@, optional_bool(document, "isAutoUpdate"@)),
                ("autoLinking"@, optional_text(document, "autoLinking"@)),
            ],
        )
    }

    fn from_json(document: &Json) -> (r: Result<Self, ZitadelCLIError>) {
        proof {
            reveal_with_fuel(first_error, 6);
        }
        if !document.is_object() {
            return Err(no_object());
        }
        let is_linking_allowed = match optional_bool_member(document, "isLinkingAllowed") {
            Ok(value) => value,
            Err(e) => return Err(e),
        };
        let is_creation_allowed = match optional_bool_member(document, "isCreationAllowed") {
            Ok(value) => value,
            Err(e) => return Err(e),
        };
        let is_auto_creation = match optional_bool_member(document, "isAutoCreation") {
            Ok(value) => value,
            Err(e) => return Err(e),
        };
        let is_auto_update = match optional_bool_member(document, "isAutoUpdate") {
            Ok(value) => value,
            Err(e) => return Err(e),
        };
        let auto_linking = match optional_text_member(document, "autoLinking") {
            Ok(value) => value,
            Err(e) => return Err(e),
        };
        let payload = NewGoogleIdpProviderOptions {
            is_linking_allowed,
            is_creation_allowed,
            is_auto_creation,
            is_auto_update,
            auto_linking,
        };
        assert(Self::described(document@)->Ok_0->Object_0 =~= payload@->Object_0);
        Ok(payload)
    }

    fn to_json(&self) -> (document: Json) {
        let mut members: Vec<(String, Json)> = Vec::new();
        members.push(member("isLinkingAllowed", optional_bool_json(&self.is_linking_allowed)));
        members.push(member("isCreationAllowed", optional_bool_json(&self.is_creation_allowed)));
        members.push(member("isAutoCreation", optional_bool_json(&self.is_auto_creation)));
        members.push(member("isAutoUpdate", optional_bool_json(&self.is_auto_update)));
        members.push(member("autoLinking", optional_text_json(&self.auto_linking)));
        let document = Json::Object(members);
        assert(document@->Object_0 =~= self@->Object_0);
        document
    }

    proof fn lemma_reads_back(&self) {
        reveal_strlit("isLinkingAllowed");
        reveal_strlit("isCreationAllowed");
        reveal_strlit("isAutoCreation");
        reveal_strlit("isAutoUpdate");
        reveal_strlit("autoLinking");
        reveal_with_fuel(first_error, 6);
        let members = self@->Object_0;
        assert(members[0].0 == "isLinkingAllowed"@);
        assert(members[1].0 == "isCreationAllowed"@);
        assert(members[2].0 == "isAutoCreation"@);
        assert(members[3].0 == "isAutoUpdate"@);
        assert(members[4].0 == "autoLinking"@);
        lemma_member_at(members, 0);
        lemma_member_at(members, 1);
        lemma_member_at(members, 2);
        lemma_member_at(members, 3);
        lemma_member_at(members, 4);
        assert(Self::described(self@)->Ok_0->Object_0 =~= members);
    }
}

} // verus!
