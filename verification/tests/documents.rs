use contract_publisher::contract::Contract;
use contract_publisher::document::{
    creation_value, read_json, read_page_ids, read_target_ids, read_text, ContractIds,
    Get4PlayResponse,
};
use contract_publisher::error::PublishError;
use contract_publisher::event::{
    exit_gate_value, intro_cut_end_value, kill_value, plan_events, start_value, strings_value,
    Envelope, Event,
};
use contract_publisher::request::{Header, Method, Request};
use contract_publisher::PublishTypes;
use serde_json::Value;

fn parsed(text: &str) -> Value {
    serde_json::from_str(text).unwrap()
}

fn envelope() -> Envelope {
    Envelope {
        contract_session_id: "S-1".to_string(),
        contract_id: "abc".to_string(),
        user_id: "user-1".to_string(),
        session_id: "token".to_string(),
        id: "id-1".to_string(),
    }
}

fn ids() -> ContractIds {
    ContractIds { contract_id: "C".to_string(), public_id: "P".to_string() }
}

#[test]
fn read_json_reads_a_document() {
    let value = read_json(r#" {"a": [1, "two", null, true, 2.5], "b": {"c": "d"}} "#).unwrap();
    assert_eq!(value, parsed(r#"{"b":{"c":"d"},"a":[1,"two",null,true,2.5]}"#));
    assert_eq!(value["b"]["c"].as_str(), Some("d"));
}

#[test]
fn read_json_refuses_what_is_no_document() {
    for text in ["", "{", "[1,]", "{\"a\":1} x", "nul"] {
        assert_eq!(read_json(text).unwrap_err(), PublishError::MalformedJson);
    }
}

#[test]
fn read_text_finds_strings_only() {
    let value = parsed(r#"{"a":"x","b":1,"c":null,"d":["x"],"e":{"a":"y"},"":"empty"}"#);
    assert_eq!(read_text(&value, "a"), Some("x".to_string()));
    assert_eq!(read_text(&value, ""), Some("empty".to_string()));
    assert_eq!(read_text(&value, "b"), None);
    assert_eq!(read_text(&value, "c"), None);
    assert_eq!(read_text(&value, "d"), None);
    assert_eq!(read_text(&value, "e"), None);
    assert_eq!(read_text(&value, "missing"), None);
    assert_eq!(read_text(&value["e"], "a"), Some("y".to_string()));
    assert_eq!(read_text(&parsed(r#"["a"]"#), "a"), None);
    assert_eq!(read_text(&parsed(r#""a""#), "a"), None);
}

#[test]
fn target_ids_in_the_order_of_the_list() {
    let document = parsed(
        r#"{"CreateFromParamsJ":{"creationData":{"Targets":
            [{"RepositoryId":"t2"},{"RepositoryId":"t1","x":1},{"RepositoryId":"t2"}]}}}"#,
    );
    assert_eq!(
        read_target_ids(&document).unwrap(),
        vec!["t2".to_string(), "t1".to_string(), "t2".to_string()]
    );
    let none = parsed(r#"{"CreateFromParamsJ":{"creationData":{"Targets":[]}}}"#);
    assert_eq!(read_target_ids(&none).unwrap(), Vec::<String>::new());
}

#[test]
fn target_ids_need_an_array_of_entries_with_ids() {
    for text in [
        r#"{}"#,
        r#"{"CreateFromParamsJ":null}"#,
        r#"{"CreateFromParamsJ":{"creationData":{"Targets":"t"}}}"#,
        r#"{"CreateFromParamsJ":{"creationData":{"Targets":["t"]}}}"#,
        r#"{"CreateFromParamsJ":{"creationData":{"Targets":[{"RepositoryId":"a"},{}]}}}"#,
        r#"{"Targets":[{"RepositoryId":"a"}]}"#,
    ] {
        assert_eq!(read_target_ids(&parsed(text)).unwrap_err(), PublishError::InvalidTargets);
    }
}

#[test]
fn session_answer_is_read() {
    let answer = parsed(
        r#"{"ContractSessionId":"S-9","Contract":{"Data":{"GameChangers":["b","a","b"]}}}"#,
    );
    let session = Get4PlayResponse::from_value(&answer).unwrap();
    assert_eq!(session.contract_session_id, "S-9");
    assert_eq!(session.game_changers, vec!["b".to_string(), "a".to_string(), "b".to_string()]);
    let bare = parsed(r#"{"ContractSessionId":"","Contract":{"Data":{"GameChangers":[]}}}"#);
    let session = Get4PlayResponse::from_value(&bare).unwrap();
    assert_eq!(session.contract_session_id, "");
    assert!(session.game_changers.is_empty());
}

#[test]
fn session_answer_failures_in_their_order() {
    let neither = parsed(r#"{"Contract":{"Data":{"GameChangers":7}}}"#);
    assert_eq!(
        Get4PlayResponse::from_value(&neither).unwrap_err(),
        PublishError::MissingSessionId
    );
    let no_list = parsed(r#"{"ContractSessionId":"S","Contract":{"Data":{}}}"#);
    assert_eq!(
        Get4PlayResponse::from_value(&no_list).unwrap_err(),
        PublishError::InvalidGameChangers
    );
    let null_list = parsed(r#"{"ContractSessionId":"S","Contract":{"Data":{"GameChangers":null}}}"#);
    assert_eq!(
        Get4PlayResponse::from_value(&null_list).unwrap_err(),
        PublishError::InvalidGameChangers
    );
}

#[test]
fn new_session_is_empty() {
    let session = Get4PlayResponse::new();
    assert_eq!(session.contract_session_id, "");
    assert!(session.game_changers.is_empty());
}

#[test]
fn page_ids_are_read() {
    let page = parsed(r#"{"data":{"Contract":{"ContractId":"C-1","ContractPublicId":"P-1"}}}"#);
    let ids = read_page_ids(&page).unwrap();
    assert_eq!(ids.contract_id, "C-1");
    assert_eq!(ids.public_id, "P-1");
    let other = parsed(r#"{"Contract":{"ContractId":"C-1","ContractPublicId":"P-1"}}"#);
    assert_eq!(read_page_ids(&other).unwrap_err(), PublishError::InvalidContractPage);
}

#[test]
fn creation_document_takes_the_ids() {
    let document = parsed(
        r#"{"MissionId":"m","CreateFromParamsJ":{"creationData":{"Title":"t","ContractId":"old"},
            "other":[1,2]}}"#,
    );
    let body = creation_value(&document, &ids()).unwrap();
    assert_eq!(
        body,
        parsed(
            r#"{"creationData":{"Title":"t","ContractId":"C","ContractPublicId":"P"},
                "other":[1,2]}"#
        )
    );
    assert_eq!(document["CreateFromParamsJ"]["creationData"]["ContractId"].as_str(), Some("old"));
}

#[test]
fn absent_creation_parameters_count_as_empty() {
    let expected = parsed(r#"{"creationData":{"ContractId":"C","ContractPublicId":"P"}}"#);
    for text in [
        r#"{}"#,
        r#"{"CreateFromParamsJ":null}"#,
        r#"{"CreateFromParamsJ":{}}"#,
        r#"{"CreateFromParamsJ":{"creationData":null}}"#,
        r#"{"CreateFromParamsJ":{"creationData":{}}}"#,
    ] {
        assert_eq!(creation_value(&parsed(text), &ids()).unwrap(), expected);
    }
}

#[test]
fn creation_parameters_of_another_kind_are_refused() {
    for text in [
        r#"{"CreateFromParamsJ":"text"}"#,
        r#"{"CreateFromParamsJ":[]}"#,
        r#"{"CreateFromParamsJ":3}"#,
        r#"{"CreateFromParamsJ":true}"#,
        r#"{"CreateFromParamsJ":{"creationData":[]}}"#,
        r#"{"CreateFromParamsJ":{"creationData":"x"}}"#,
        r#"{"CreateFromParamsJ":{"creationData":false}}"#,
    ] {
        assert_eq!(
            creation_value(&parsed(text), &ids()).unwrap_err(),
            PublishError::InvalidCreationParams
        );
    }
}

#[test]
fn strings_become_an_array() {
    let texts = vec!["b".to_string(), "".to_string(), "a".to_string()];
    assert_eq!(strings_value(&texts), parsed(r#"["b","","a"]"#));
    assert_eq!(strings_value(&Vec::new()), parsed("[]"));
}

#[test]
fn plan_for_two_targets() {
    let events = plan_events(vec!["t1".to_string(), "t2".to_string()]);
    assert_eq!(events.len(), 5);
    assert!(matches!(events[0], Event::ContractStartEvent));
    assert!(matches!(events[1], Event::IntroCutEndEvent));
    assert!(matches!(&events[2], Event::KillEvent { repository_id } if repository_id == "t1"));
    assert!(matches!(&events[3], Event::KillEvent { repository_id } if repository_id == "t2"));
    assert!(matches!(events[4], Event::ExitGateEvent));
}

#[test]
fn plan_without_targets() {
    let events = plan_events(Vec::new());
    assert_eq!(events.len(), 3);
    assert!(matches!(events[0], Event::ContractStartEvent));
    assert!(matches!(events[1], Event::IntroCutEndEvent));
    assert!(matches!(events[2], Event::ExitGateEvent));
}

#[test]
fn intro_event_document() {
    let expected = parsed(
        r#"{"Timestamp":1.0,"Name":"IntroCutEnd","ContractSessionId":"S-1","ContractId":"abc",
            "Value":"","UserId":"user-1","SessionId":"token","Origin":"gameclient","Id":"id-1"}"#,
    );
    assert_eq!(intro_cut_end_value(&envelope()), expected);
}

#[test]
fn exit_event_document() {
    let expected = parsed(
        r#"{"Timestamp":2.0,"Name":"exit_gate","ContractSessionId":"S-1","ContractId":"abc",
            "Value":{"name_ExitGate":"Exit_Gate","RepositoryId":"xyz"},
            "UserId":"user-1","SessionId":"token","Origin":"gameclient","Id":"id-1"}"#,
    );
    assert_eq!(exit_gate_value(&envelope(), &"xyz".to_string()), expected);
}

#[test]
fn start_event_document() {
    let expected = parsed(
        r#"{"Name":"ContractStart","ContractSessionId":"S-1","ContractId":"abc",
            "Value":{"Loadout":[],"Disguise":"00000000-0000-0000-0000-000000000000",
                "LocationId":"LOCATION","GameChangers":["g"],"ContractType":"creation",
                "DifficultyLevel":2.0,"IsHitmanSuit":true,
                "SelectedCharacterId":"00000000-0000-0000-0000-000000000000"},
            "XboxGameMode":2.0,"XboxDifficulty":0.0,"Timestamp":0.0,
            "UserId":"user-1","SessionId":"token","Origin":"gameclient","Id":"id-1"}"#,
    );
    let value = start_value(&envelope(), &"LOCATION".to_string(), &vec!["g".to_string()]);
    assert_eq!(value, expected);
    assert!(value["Timestamp"].is_f64());
    assert!(value["Value"]["DifficultyLevel"].is_f64());
}

#[test]
fn kill_event_document() {
    let expected = parsed(
        r#"{"Timestamp":1.0,"Name":"Kill","ContractSessionId":"S-1","ContractId":"abc",
            "Value":{"RepositoryId":"t1","ActorId":0.0,"ActorType":1.0,"KillType":1.0,
                "KillContext":1.0,"BodyPartId":1.0,"RoomId":1.0,"ExplosionType":1.0,
                "TotalDamage":1000.0,"Accident":true,"Explosive":true,"Projectile":true,
                "Sniper":true,"IsHeadshot":true,"IsTarget":true,"ThroughWall":true,
                "IsMoving":true,"OutfitIsHitmanSuit":true,"WeaponSilenced":true,
                "KillItemRepositoryId":"","OutfitRepositoryId":"","ActorName":"","KillClass":"",
                "ActorPosition":"0.0, 0.0, 0.0","HeroPosition":"0.0, 0.0, 0.0",
                "DamageEvents":[],"PlayerId":0.0,"KillItemInstanceId":"","KillItemCategory":"",
                "KillMethodBroad":"","KillMethodStrict":"","History":[]},
            "UserId":"user-1","SessionId":"token","Origin":"gameclient","Id":"id-1"}"#,
    );
    assert_eq!(kill_value(&envelope(), &"t1".to_string()), expected);
}

#[test]
fn contract_reads_its_document() {
    let document = parsed(r#"{"MissionId":"m","MissionName":"n","ExitId":"e"}"#);
    let contract = Contract::from_contract_json(document, PublishTypes::HITMAN2).unwrap();
    assert_eq!(contract.get_contract_id().unwrap(), "m");
    assert_eq!(contract.get_location_id().unwrap(), "n");
    assert_eq!(contract.get_exit_id().unwrap(), "e");
    assert_eq!(contract.backend(), PublishTypes::HITMAN2);
    let empty = Contract::from_contract_json(parsed("{}"), PublishTypes::HITMAN3).unwrap();
    assert_eq!(empty.get_contract_id().unwrap_err(), PublishError::MissingMissionId);
    assert_eq!(empty.get_location_id().unwrap_err(), PublishError::MissingMissionName);
    assert_eq!(empty.get_exit_id().unwrap_err(), PublishError::MissingExitId);
    assert_eq!(empty.backend(), PublishTypes::HITMAN3);
    let wrong = parsed(r#"{"MissionId":1,"MissionName":[],"ExitId":null}"#);
    let wrong = Contract::from_contract_json(wrong, PublishTypes::HITMAN3).unwrap();
    assert_eq!(wrong.get_contract_id().unwrap_err(), PublishError::MissingMissionId);
    assert_eq!(wrong.get_location_id().unwrap_err(), PublishError::MissingMissionName);
    assert_eq!(wrong.get_exit_id().unwrap_err(), PublishError::MissingExitId);
}

#[test]
fn session_request_of_a_contract() {
    let document = parsed(r#"{"MissionId":"m \"quoted\""}"#);
    let contract = Contract::from_contract_json(document, PublishTypes::HITMAN3).unwrap();
    let request = contract.get_for_play2(&"secret".to_string()).unwrap();
    assert_eq!(request.method, Method::Post);
    assert_eq!(
        request.url,
        "https://hm3-service.hitman.io/authentication/api/userchannel/ContractsService/GetForPlay2"
    );
    assert_eq!(request.bearer, "secret");
    assert_eq!(
        request.body.unwrap(),
        r#"{"difficultyLevel":2,"extraGameChangerIds":[],"id":"m \"quoted\"","locationId":""}"#
    );
    let empty = Contract::from_contract_json(parsed("[]"), PublishTypes::HITMAN3).unwrap();
    assert_eq!(
        empty.get_for_play2(&"secret".to_string()).unwrap_err(),
        PublishError::MissingMissionId
    );
}

#[test]
fn events_request_of_a_contract() {
    let document = parsed(r#"{"MissionId":"m","ExitId":"e"}"#);
    let contract = Contract::from_contract_json(document, PublishTypes::HITMAN2).unwrap();
    let user = "u".to_string();
    let bearer = "b".to_string();
    let events = vec![
        Event::ExitGateEvent,
        Event::KillEvent { repository_id: "t".to_string() },
        Event::IntroCutEndEvent,
    ];
    let request = contract.save_events(&events, &user, &bearer).unwrap();
    assert_eq!(request.method, Method::Post);
    assert_eq!(
        request.url,
        "https://pc2-service.hitman.io/authentication/api/userchannel/EventsService/SaveEvents2"
    );
    let body = parsed(&request.body.unwrap());
    assert_eq!(body.as_object().unwrap().len(), 2);
    assert_eq!(body["userId"].as_str(), Some("u"));
    let values = body["values"].as_array().unwrap();
    assert_eq!(values.len(), 3);
    assert_eq!(values[0]["Name"].as_str(), Some("exit_gate"));
    assert_eq!(values[1]["Name"].as_str(), Some("Kill"));
    assert_eq!(values[2]["Name"].as_str(), Some("IntroCutEnd"));
    assert_eq!(values[0]["ContractSessionId"].as_str(), Some(""));
    assert_eq!(values[0]["SessionId"].as_str(), Some(contract.session_id().as_str()));

    let none = contract.save_events(&Vec::new(), &user, &bearer).unwrap();
    assert_eq!(none.body.unwrap(), r#"{"userId":"u","values":[]}"#);
}

#[test]
fn events_request_fails_with_the_first_failure() {
    let user = "u".to_string();
    let bearer = "b".to_string();
    let no_name = Contract::from_contract_json(parsed(r#"{"MissionId":"m"}"#), PublishTypes::HITMAN2)
        .unwrap();
    let exit_first = vec![Event::IntroCutEndEvent, Event::ExitGateEvent, Event::ContractStartEvent];
    assert_eq!(
        no_name.save_events(&exit_first, &user, &bearer).unwrap_err(),
        PublishError::MissingExitId
    );
    let start_first = vec![Event::ContractStartEvent, Event::ExitGateEvent];
    assert_eq!(
        no_name.save_events(&start_first, &user, &bearer).unwrap_err(),
        PublishError::MissingMissionName
    );
    let nothing = Contract::from_contract_json(parsed("{}"), PublishTypes::HITMAN2).unwrap();
    assert_eq!(
        nothing.save_events(&start_first, &user, &bearer).unwrap_err(),
        PublishError::MissingMissionId
    );
    assert!(nothing.save_events(&Vec::new(), &user, &bearer).is_ok());
}

#[test]
fn single_event_request() {
    let document = parsed(r#"{"MissionId":"m","ExitId":"e"}"#);
    let contract = Contract::from_contract_json(document, PublishTypes::HITMAN3).unwrap();
    let user = "u".to_string();
    let bearer = "b".to_string();
    let event = Event::KillEvent { repository_id: "t".to_string() };
    let request = contract.save_event2(event, &user, &bearer).unwrap();
    assert_eq!(
        request.url,
        "https://hm3-service.hitman.io/authentication/api/userchannel/EventsService/SaveEvents2"
    );
    let body = parsed(&request.body.unwrap());
    let values = body["values"].as_array().unwrap();
    assert_eq!(values.len(), 1);
    assert_eq!(values[0]["Value"]["RepositoryId"].as_str(), Some("t"));
    assert_eq!(values[0]["Id"].as_str().unwrap().len(), 36);
    assert_eq!(
        contract.save_event2(Event::ContractStartEvent, &user, &bearer).unwrap_err(),
        PublishError::MissingMissionName
    );
}

#[test]
fn event_document_of_a_contract() {
    let document = parsed(r#"{"MissionId":"m","MissionName":"n","ExitId":"e"}"#);
    let contract = Contract::from_contract_json(document, PublishTypes::HITMAN3).unwrap();
    let user = "u".to_string();
    let exit = contract.event_json(&Event::ExitGateEvent, &user, "id-7".to_string()).unwrap();
    assert_eq!(exit["Id"].as_str(), Some("id-7"));
    assert_eq!(exit["ContractId"].as_str(), Some("m"));
    assert_eq!(exit["Value"]["RepositoryId"].as_str(), Some("e"));
    let start = contract.event_json(&Event::ContractStartEvent, &user, "id-8".to_string()).unwrap();
    assert_eq!(start["Value"]["LocationId"].as_str(), Some("n"));
    assert_eq!(start["Value"]["GameChangers"], parsed("[]"));
}

#[test]
fn page_request_of_a_contract() {
    let contract = Contract::from_contract_json(parsed("{}"), PublishTypes::HITMAN3).unwrap();
    let request = contract.create(&"b".to_string());
    assert_eq!(request.method, Method::Get);
    assert_eq!(request.url, "https://hm3-service.hitman.io/profiles/page/contractcreation/create");
    assert_eq!(request.bearer, "b");
    assert_eq!(request.body, None);
    assert_eq!(request.headers.len(), 1);
    assert_eq!(request.headers[0].name, "Version");
    assert_eq!(request.headers[0].value, "8.7.0");
}

#[test]
fn record_request_of_a_contract() {
    let document = parsed(r#"{"CreateFromParamsJ":{"creationData":{"a":1.0}}}"#);
    let contract = Contract::from_contract_json(document, PublishTypes::HITMAN2).unwrap();
    let page = parsed(r#"{"data":{"Contract":{"ContractId":"C","ContractPublicId":"P"}}}"#);
    let request = contract.create_from_params(&page, &"b".to_string()).unwrap();
    assert_eq!(request.method, Method::Post);
    assert_eq!(
        request.url,
        "https://pc2-service.hitman.io/authentication/api/userchannel/ContractsService/CreateFromParams"
    );
    assert_eq!(
        request.body.unwrap(),
        r#"{"creationData":{"ContractId":"C","ContractPublicId":"P","a":1.0}}"#
    );
    let bad = Contract::from_contract_json(parsed(r#"{"CreateFromParamsJ":7}"#), PublishTypes::HITMAN2)
        .unwrap();
    assert_eq!(
        bad.create_from_params(&page, &"b".to_string()).unwrap_err(),
        PublishError::InvalidCreationParams
    );
    assert_eq!(
        bad.create_from_params(&parsed("{}"), &"b".to_string()).unwrap_err(),
        PublishError::InvalidContractPage
    );
}

#[test]
fn planned_events_of_a_contract() {
    let document =
        parsed(r#"{"CreateFromParamsJ":{"creationData":{"Targets":[{"RepositoryId":"t"}]}}}"#);
    let contract = Contract::from_contract_json(document, PublishTypes::HITMAN2).unwrap();
    let events = contract.planned_events().unwrap();
    assert_eq!(events.len(), 4);
    assert!(matches!(&events[2], Event::KillEvent { repository_id } if repository_id == "t"));
    let none = Contract::from_contract_json(parsed("{}"), PublishTypes::HITMAN2).unwrap();
    assert_eq!(none.planned_events().unwrap_err(), PublishError::InvalidTargets);
}

#[test]
fn requests_are_made_as_asked() {
    let header = Header { name: "A".to_string(), value: "1".to_string() };
    let get = Request::get("http://x/", &"b".to_string(), vec![header]);
    assert_eq!(get.method, Method::Get);
    assert_eq!(get.url, "http://x/");
    assert_eq!(get.bearer, "b");
    assert_eq!(get.headers.len(), 1);
    assert_eq!(get.body, None);
    let post = Request::post("http://y/", &"c".to_string(), Vec::new(), "body".to_string());
    assert_eq!(post.method, Method::Post);
    assert_eq!(post.url, "http://y/");
    assert_eq!(post.bearer, "c");
    assert!(post.headers.is_empty());
    assert_eq!(post.body.as_deref(), Some("body"));
}
