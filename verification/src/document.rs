//! What the publisher reads from JSON documents: the fields of a contract
//! document and of the backend's answers, and the document that fills in a
//! contract record.

use vstd::prelude::*;
use crate::error::PublishError;
use crate::json::{
    json_items, json_of, json_parse, strings_from_value, texts_of, value_from_str, value_member,
    value_set_member, value_string, JsonModel,
};

verus! {

/// The mission that a contract document names.
pub open spec fn mission_id(document: JsonModel) -> Option<Seq<char>> {
    document.member("MissionId"@).text()
}

/// The mission's name, which serves as the location of the contract.
pub open spec fn mission_name(document: JsonModel) -> Option<Seq<char>> {
    document.member("MissionName"@).text()
}

/// The exit that a contract document names.
pub open spec fn exit_id(document: JsonModel) -> Option<Seq<char>> {
    document.member("ExitId"@).text()
}

/// The creation parameters of a contract document: the template of the
/// document that fills in the contract record.
pub open spec fn creation_params(document: JsonModel) -> JsonModel {
    document.member("CreateFromParamsJ"@)
}

/// The target list of a contract document.
pub open spec fn target_list(document: JsonModel) -> JsonModel {
    creation_params(document).member("creationData"@).member("Targets"@)
}

/// The repository id of one entry of a target list.
pub open spec fn target_id(target: JsonModel) -> Option<Seq<char>> {
    target.member("RepositoryId"@).text()
}

/// The repository ids of a contract's targets in the order of the target
/// list, or `None` where the list is no array or an entry has no id.
pub open spec fn target_ids(document: JsonModel) -> Option<Seq<Seq<char>>> {
    match target_list(document) {
        JsonModel::Array(targets) => if forall|i: int|
            0 <= i < targets.len() ==> target_id(#[trigger] targets[i]) is Some {
            Some(targets.map_values(|target: JsonModel| target_id(target)->0))
        } else {
            None
        },
        _ => None,
    }
}

/// The texts of the items of an array; meaningful for an array of strings.
pub open spec fn string_texts(document: JsonModel) -> Seq<Seq<char>> {
    document->Array_0.map_values(|item: JsonModel| item->String_0)
}

/// The texts of an array of strings are the texts it was made of.
pub proof fn lemma_string_texts(texts: Seq<Seq<char>>)
    ensures
        JsonModel::strings(texts).is_strings(),
        string_texts(JsonModel::strings(texts)) == texts,
{
}

/// Reads a text as a JSON document.
pub fn read_json(text: &str) -> (document: Result<serde_json::Value, PublishError>)
    ensures
        match document {
            Ok(value) => json_parse(text@) == Some(json_of(value)),
            Err(error) => error == PublishError::MalformedJson && json_parse(text@) is None,
        },
{
    match value_from_str(text) {
        Ok(value) => Ok(value),
        Err(_) => Err(PublishError::MalformedJson),
    }
}

/// The text of the string member under `key`, if there is one.
pub fn read_text(document: &serde_json::Value, key: &str) -> (text: Option<String>)
    ensures
        match text {
            Some(text) => json_of(*document).member(key@).text() == Some(text@),
            None => json_of(*document).member(key@).text() is None,
        },
{
    match value_member(document, key).as_str() {
        Some(text) => Some(text.to_owned()),
        None => None,
    }
}

/// The repository ids of the targets of a contract document.
pub fn read_target_ids(document: &serde_json::Value) -> (ids: Result<Vec<String>, PublishError>)
    ensures
        match ids {
            Ok(ids) => target_ids(json_of(*document)) == Some(texts_of(ids@)),
            Err(error) => error == PublishError::InvalidTargets && target_ids(json_of(*document))
                is None,
        },
{
    let params = value_member(document, "CreateFromParamsJ");
    let list = value_member(value_member(params, "creationData"), "Targets");
    let targets = match list.as_array() {
        Some(targets) => targets,
        None => {
            return Err(PublishError::InvalidTargets);
        },
    };
    let ghost models = json_items(targets@);
    let mut ids: Vec<String> = Vec::new();
    let mut read: usize = 0;
    while read < targets.len()
        invariant
            read <= targets.len(),
            models == json_items(targets@),
            target_list(json_of(*document)) == JsonModel::Array(models),
            ids@.len() == read,
            forall|i: int| 0 <= i < read ==> target_id(#[trigger] models[i]) == Some(ids@[i]@),
        decreases targets.len() - read,
    {
        match read_text(&targets[read], "RepositoryId") {
            Some(id) => {
                ids.push(id);
            },
            None => {
                assert(models[read as int] == json_of(targets@[read as int]));
                return Err(PublishError::InvalidTargets);
            },
        }
        read += 1;
    }
    Ok(ids)
}

/// What the backend answers to a session request.
#[derive(Debug)]
pub struct Get4PlayResponse {
    /// The gameplay modifiers that apply to the contract.
    pub game_changers: Vec<String>,
    /// The play session opened for the contract.
    pub contract_session_id: String,
}

/// A session answer as a mathematical value.
pub struct SessionView {
    pub game_changers: Seq<Seq<char>>,
    pub contract_session_id: Seq<char>,
}

/// The session of an attempt that has no answer yet: no id, no game
/// changers.
pub open spec fn no_session() -> SessionView {
    SessionView { game_changers: Seq::empty(), contract_session_id: Seq::empty() }
}

impl View for Get4PlayResponse {
    type V = SessionView;

    open spec fn view(&self) -> SessionView {
        SessionView {
            game_changers: texts_of(self.game_changers@),
            contract_session_id: self.contract_session_id@,
        }
    }
}

/// The game changers that a session answer lists.
pub open spec fn game_changer_list(answer: JsonModel) -> JsonModel {
    answer.member("Contract"@).member("Data"@).member("GameChangers"@)
}

/// What a session answer says: the session id under `ContractSessionId`,
/// which must be a string, and the list of game changers, which must be an
/// array of strings. The session id is looked at first.
pub open spec fn session_of(answer: JsonModel) -> Result<SessionView, PublishError> {
    match answer.member("ContractSessionId"@).text() {
        None => Err(PublishError::MissingSessionId),
        Some(contract_session_id) => if game_changer_list(answer).is_strings() {
            Ok(
                SessionView {
                    game_changers: string_texts(game_changer_list(answer)),
                    contract_session_id,
                },
            )
        } else {
            Err(PublishError::InvalidGameChangers)
        },
    }
}

impl Get4PlayResponse {
    /// The session before any answer: no id, no game changers.
    pub fn new() -> (session: Get4PlayResponse)
        ensures
            session@ == no_session(),
    {
        let session = Get4PlayResponse {
            game_changers: Vec::new(),
            contract_session_id: String::new(),
        };
        assert(texts_of(session.game_changers@) =~= Seq::empty());
        session
    }

    /// Reads the answer to a session request.
    pub fn from_value(answer: &serde_json::Value) -> (session: Result<
        Get4PlayResponse,
        PublishError,
    >)
        ensures
            match session {
                Ok(session) => session_of(json_of(*answer)) == Ok::<SessionView, PublishError>(
                    session@,
                ),
                Err(error) => session_of(json_of(*answer)) == Err::<SessionView, PublishError>(
                    error,
                ),
            },
    {
        let contract_session_id = match read_text(answer, "ContractSessionId") {
            Some(id) => id,
            None => {
                return Err(PublishError::MissingSessionId);
            },
        };
        let data = value_member(value_member(answer, "Contract"), "Data");
        let list = value_member(data, "GameChangers").clone();
        match strings_from_value(list) {
            Ok(game_changers) => {
                proof {
                    lemma_string_texts(texts_of(game_changers@));
                }
                Ok(Get4PlayResponse { game_changers, contract_session_id })
            },
            Err(_) => Err(PublishError::InvalidGameChangers),
        }
    }
}

/// The two names under which the backend knows a new contract record.
#[derive(Debug)]
pub struct ContractIds {
    pub contract_id: String,
    pub public_id: String,
}

/// The names of a contract record as a mathematical value.
pub struct ContractIdsView {
    pub contract_id: Seq<char>,
    pub public_id: Seq<char>,
}

impl View for ContractIds {
    type V = ContractIdsView;

    open spec fn view(&self) -> ContractIdsView {
        ContractIdsView { contract_id: self.contract_id@, public_id: self.public_id@ }
    }
}

/// The part of a contract creation page that describes the new record.
pub open spec fn page_record(page: JsonModel) -> JsonModel {
    page.member("data"@).member("Contract"@)
}

/// The ids that a contract creation page hands out, or `None` where it
/// lacks one of them.
pub open spec fn page_ids(page: JsonModel) -> Option<ContractIdsView> {
    match (
        page_record(page).member("ContractId"@).text(),
        page_record(page).member("ContractPublicId"@).text(),
    ) {
        (Some(contract_id), Some(public_id)) => Some(ContractIdsView { contract_id, public_id }),
        _ => None,
    }
}

/// Reads the ids from a contract creation page.
pub fn read_page_ids(page: &serde_json::Value) -> (ids: Result<ContractIds, PublishError>)
    ensures
        match ids {
            Ok(ids) => page_ids(json_of(*page)) == Some(ids@),
            Err(error) => error == PublishError::InvalidContractPage && page_ids(json_of(*page))
                is None,
        },
{
    let record = value_member(value_member(page, "data"), "Contract");
    let contract_id = match read_text(record, "ContractId") {
        Some(id) => id,
        None => {
            return Err(PublishError::InvalidContractPage);
        },
    };
    let public_id = match read_text(record, "ContractPublicId") {
        Some(id) => id,
        None => {
            return Err(PublishError::InvalidContractPage);
        },
    };
    Ok(ContractIds { contract_id, public_id })
}

/// The document that fills in a contract record: the creation parameters of
/// the contract document with the record's two ids written into their
/// `creationData`. Absent parameters, or absent `creationData`, count as an
/// empty object; where either is anything else there is no such document.
pub open spec fn creation_body(document: JsonModel, ids: ContractIdsView) -> Option<JsonModel> {
    let params = creation_params(document);
    let data = params.member("creationData"@);
    if params.accepts_members() && data.accepts_members() {
        Some(
            params.with_member(
                "creationData"@,
                data
                    .with_member("ContractId"@, JsonModel::String(ids.contract_id))
                    .with_member("ContractPublicId"@, JsonModel::String(ids.public_id)),
            ),
        )
    } else {
        None
    }
}

/// The document that fills in a contract record holds the record's two
/// ids in its `creationData`; everything else in it is as in the contract's
/// creation parameters.
pub proof fn lemma_creation_body(document: JsonModel, ids: ContractIdsView)
    requires
        creation_body(document, ids) is Some,
    ensures
        ({
            let params = creation_params(document);
            let body = creation_body(document, ids)->0;
            let data = body.member("creationData"@);
            &&& data.member("ContractId"@) == JsonModel::String(ids.contract_id)
            &&& data.member("ContractPublicId"@) == JsonModel::String(ids.public_id)
            &&& forall|key: Seq<char>|
                key != "ContractId"@ && key != "ContractPublicId"@ ==> #[trigger] data.member(key)
                    == params.member("creationData"@).member(key)
            &&& forall|key: Seq<char>|
                key != "creationData"@ ==> #[trigger] body.member(key) == params.member(key)
        }),
{
    reveal_strlit("ContractId");
    reveal_strlit("ContractPublicId");
    assert("ContractId"@.len() != "ContractPublicId"@.len());
}

/// Whether members can be written into `value`.
fn accepts_members(value: &serde_json::Value) -> (yes: bool)
    ensures
        yes == json_of(*value).accepts_members(),
{
    value.is_object() || value.is_null()
}

/// Makes the document that fills in a contract record.
pub fn creation_value(document: &serde_json::Value, ids: &ContractIds) -> (body: Result<
    serde_json::Value,
    PublishError,
>)
    ensures
        match body {
            Ok(body) => creation_body(json_of(*document), ids@) == Some(json_of(body)),
            Err(error) => error == PublishError::InvalidCreationParams && creation_body(
                json_of(*document),
                ids@,
            ) is None,
        },
{
    let mut params = value_member(document, "CreateFromParamsJ").clone();
    let mut data = value_member(&params, "creationData").clone();
    if !accepts_members(&params) || !accepts_members(&data) {
        return Err(PublishError::InvalidCreationParams);
    }
    value_set_member(&mut data, "ContractId", value_string(ids.contract_id.clone()));
    value_set_member(&mut data, "ContractPublicId", value_string(ids.public_id.clone()));
    value_set_member(&mut params, "creationData", data);
    Ok(params)
}

} // verus!
