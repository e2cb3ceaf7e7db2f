//! Projects.

use crate::error::{ErrorView, ZitadelCLIError};
use crate::json::{member, Json, JsonValue};
use crate::payloads::{
    bool_or_null, first_error, lemma_member_at, no_object, object_of, optional_bool,
    optional_bool_json, optional_bool_member, optional_text, optional_text_json,
    optional_text_member, required_text, text_member, text_or_null, Payload,
};
use vstd::prelude::*;

verus! {

/// A project to add: a vessel for applications that share roles.
#[derive(Debug, Clone, PartialEq, Eq)]
pub struct NewProject {
    pub name: String,
    pub project_role_assertion: Option<bool>,
    pub project_role_check: Option<bool>,
    pub has_project_check: Option<bool>,
    pub private_labeling_setting: Option<String>,
}

impl View for NewProject {
    type V = JsonValue;

    open spec fn view(&self) -> JsonValue {
        JsonValue::Object(
            seq![
                ("name"@, JsonValue::Text(self.name@)),
                ("projectRoleAssertion"@, bool_or_null(self.project_role_assertion)),
                ("projectRoleCheck"@, bool_or_null(self.project_role_check)),
                ("hasProjectCheck"@, bool_or_null(self.has_project_check)),
                ("privateLabelingSetting"@, text_or_null(self.private_labeling_setting)),
            ],
        )
    }
}

impl Payload for NewProject {
    open spec fn described(document: JsonValue) -> Result<JsonValue, ErrorView> {
        object_of(
            document,
            seq![
                ("name"@, required_text(document, "name"@)),
                ("projectRoleAssertion"@, optional_bool(document, "projectRoleAssertion"@)),
                ("projectRoleCheck"@, optional_bool(document, "projectRoleCheck"@)),
                ("hasProjectCheck"@, optional_bool(document, "hasProjectCheck"@)),
                ("privateLabelingSetting"@, optional_text(document, "privateLabelingSetting"@)),
            ],
        )
    }

    fn from_json(document: &Json) -> (r: Result<Self, ZitadelCLIError>) {
        proof {
            reveal_with_fuel(first_error, 6);
        }
        if !document.is_object() {
            return Err(no_object());
        }
        let name = match text_member(document, "name") {
            Ok(value) => value,
            Err(e) => return Err(e),
        };
        let project_role_assertion = match optional_bool_member(document, "projectRoleAssertion") {
            Ok(value) => value,
            Err(e) => return Err(e),
        };
        let project_role_check = match optional_bool_member(document, "projectRoleCheck") {
            Ok(value) => value,
            Err(e) => return Err(e),
        };
        let has_project_check = match optional_bool_member(document, "hasProjectCheck") {
            Ok(value) => value,
            Err(e) => return Err(e),
        };
        let private_labeling_setting = match optional_text_member(
            document,
            "privateLabelingSetting",
        ) {
            Ok(value) => value,
            Err(e) => return Err(e),
        };
        let payload = NewProject {
            name,
            project_role_assertion,
            project_role_check,
            has_project_check,
            private_labeling_setting,
        };
        assert(Self::described(document@)->Ok_0->Object_0 =~= payload@->Object_0);
        Ok(payload)
    }

    fn to_json(&self) -> (document: Json) {
        let mut members: Vec<(String, Json)> = Vec::new();
        members.push(member("name", Json::text(self.name.as_str())));
        members.push(
            member("projectRoleAssertion", optional_bool_json(&self.project_role_assertion)),
        );
        members.push(member("projectRoleCheck", optional_bool_json(&self.project_role_check)));
        members.push(member("hasProjectCheck", optional_bool_json(&self.has_project_check)));
        members.push(
            member("privateLabelingSetting", optional_text_json(&self.private_labeling_setting)),
        );
        let document = Json::Object(members);
        assert(document@->Object_0 =~= self@->Object_0);
        document
    }

    proof fn lemma_reads_back(&self) {
        reveal_strlit("name");
        reveal_strlit("projectRoleAssertion");
        reveal_strlit("projectRoleCheck");
        reveal_strlit("hasProjectCheck");
        reveal_strlit("privateLabelingSetting");
        reveal_with_fuel(first_error, 6);
        let members = self@->Object_0;
        assert(members[0].0 == "name"@);
        assert(members[1].0 == "projectRoleAssertion"@);
        assert(members[2].0 == "projectRoleCheck"@);
        assert(members[3].0 == "hasProjectCheck"@);
        assert(members[4].0 == "privateLabelingSetting"@);
        lemma_member_at(members, 0);
        lemma_member_at(members, 1);
        lemma_member_at(members, 2);
        lemma_member_at(members, 3);
        lemma_member_at(members, 4);
        assert(Self::described(self@)->Ok_0->Object_0 =~= members);
    }
}

} // verus!
