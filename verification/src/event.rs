//! The events of a finished playthrough, and the JSON document that
//! reports each of them.

use vstd::prelude::*;
use crate::json::{
    json_float, json_items, json_of, texts_of, value_array, value_bool, value_float, value_object,
    value_set_member, value_string, JsonModel,
};

verus! {

/// One thing that happened in the playthrough that is reported.
#[derive(Debug)]
pub enum Event {
    /// The contract began.
    ContractStartEvent,
    /// The opening scene ended.
    IntroCutEndEvent,
    /// The target with this repository id was eliminated.
    KillEvent { repository_id: String },
    /// Every body was hidden. This event has no JSON form.
    AllBodiesHiddenEvent,
    /// The player left through the exit.
    ExitGateEvent,
}

/// An event as a mathematical value.
pub enum EventView {
    ContractStart,
    IntroCutEnd,
    Kill { repository_id: Seq<char> },
    AllBodiesHidden,
    ExitGate,
}

impl View for Event {
    type V = EventView;

    open spec fn view(&self) -> EventView {
        match self {
            Event::ContractStartEvent => EventView::ContractStart,
            Event::IntroCutEndEvent => EventView::IntroCutEnd,
            Event::KillEvent { repository_id } => EventView::Kill { repository_id: repository_id@ },
            Event::AllBodiesHiddenEvent => EventView::AllBodiesHidden,
            Event::ExitGateEvent => EventView::ExitGate,
        }
    }
}

/// The events held by a sequence, as mathematical values.
pub open spec fn events_of(events: Seq<Event>) -> Seq<EventView> {
    events.map_values(|event: Event| event@)
}

/// The playthrough that is reported for a contract with the given targets:
/// the start, the end of the opening scene, one kill per target in the
/// targets' order, and the exit.
pub open spec fn event_plan(targets: Seq<Seq<char>>) -> Seq<EventView> {
    seq![EventView::ContractStart, EventView::IntroCutEnd] + targets.map_values(
        |repository_id: Seq<char>| EventView::Kill { repository_id },
    ) + seq![EventView::ExitGate]
}

/// The repository ids of the kills among `events`, in the events' order.
pub open spec fn kill_ids(events: Seq<EventView>) -> Seq<Seq<char>>
    decreases events.len(),
{
    if events.len() == 0 {
        seq![]
    } else {
        match events.last() {
            EventView::Kill { repository_id } => kill_ids(events.drop_last()).push(repository_id),
            _ => kill_ids(events.drop_last()),
        }
    }
}

/// Whether `c` is a lower-case hexadecimal digit.
pub open spec fn is_lower_hex(c: char) -> bool {
    ||| '0' <= c <= '9'
    ||| 'a' <= c <= 'f'
}

/// Whether `id` has the shape of a hyphenated lower-case UUID: 36
/// characters, hyphens after 8, 12, 16 and 20 hexadecimal digits.
pub open spec fn is_event_id(id: Seq<char>) -> bool {
    &&& id.len() == 36
    &&& forall|i: int|
        0 <= i < 36 ==> if i == 8 || i == 13 || i == 18 || i == 23 {
            #[trigger] id[i] == '-'
        } else {
            is_lower_hex(id[i])
        }
}

/// `Uuid::new_v4` followed by `to_string`: a random UUID in its hyphenated
/// lower-case form. Which one is not known.
#[verifier::external_body]
pub(crate) fn fresh_event_id() -> (id: String)
    ensures
        is_event_id(id@),
{
    uuid::Uuid::new_v4().to_string()
}

/// The playthrough that is reported for a contract with the given targets.
pub fn plan_events(targets: Vec<String>) -> (events: Vec<Event>)
    ensures
        events_of(events@) == event_plan(texts_of(targets@)),
{
    let mut events: Vec<Event> = Vec::new();
    events.push(Event::ContractStartEvent);
    events.push(Event::IntroCutEndEvent);
    let ghost all = texts_of(targets@);
    let mut taken: usize = 0;
    let count = targets.len();
    while taken < count
        invariant
            taken <= count,
            count == targets.len(),
            texts_of(targets@) == all,
            events@.len() == 2 + taken,
            events@[0]@ == EventView::ContractStart,
            events@[1]@ == EventView::IntroCutEnd,
            forall|i: int|
                2 <= i < 2 + taken ==> (#[trigger] events@[i])@ == (EventView::Kill {
                    repository_id: all[i - 2],
                }),
        decreases count - taken,
    {
        let repository_id = targets[taken].clone();
        events.push(Event::KillEvent { repository_id });
        taken += 1;
    }
    events.push(Event::ExitGateEvent);
    events
}

/// The plan for a contract reports exactly the contract's targets as
/// kills, one for one and in the targets' order, between the start and the
/// end of the opening scene before them and the exit after them.
pub proof fn lemma_plan_reports_each_target(targets: Seq<Seq<char>>)
    ensures
        event_plan(targets).len() == targets.len() + 3,
        kill_ids(event_plan(targets)) == targets,
        event_plan(targets)[0] == EventView::ContractStart,
        event_plan(targets)[1] == EventView::IntroCutEnd,
        event_plan(targets).last() == EventView::ExitGate,
        forall|i: int|
            0 <= i < targets.len() ==> #[trigger] event_plan(targets)[2 + i] == (EventView::Kill {
                repository_id: targets[i],
            }),
{
    let plan = event_plan(targets);
    assert(plan.drop_last() =~= plan_before_exit(targets));
    lemma_kills_before_exit(targets);
}

/// The plan without the exit.
spec fn plan_before_exit(targets: Seq<Seq<char>>) -> Seq<EventView> {
    seq![EventView::ContractStart, EventView::IntroCutEnd] + targets.map_values(
        |repository_id: Seq<char>| EventView::Kill { repository_id },
    )
}

proof fn lemma_kills_before_exit(targets: Seq<Seq<char>>)
    ensures
        kill_ids(plan_before_exit(targets)) == targets,
    decreases targets.len(),
{
    let plan = plan_before_exit(targets);
    if targets.len() == 0 {
        reveal_with_fuel(kill_ids, 3);
    } else {
        lemma_kills_before_exit(targets.drop_last());
        assert(plan.drop_last() =~= plan_before_exit(targets.drop_last()));
    }
}

/// What every reported event carries beside its own details.
pub struct Envelope {
    /// The play session that the backend opened for the contract.
    pub contract_session_id: String,
    /// The contract's mission id.
    pub contract_id: String,
    /// The reporting user.
    pub user_id: String,
    /// The client's session token.
    pub session_id: String,
    /// The event's own identifier.
    pub id: String,
}

/// An envelope as a mathematical value.
pub struct EnvelopeView {
    pub contract_session_id: Seq<char>,
    pub contract_id: Seq<char>,
    pub user_id: Seq<char>,
    pub session_id: Seq<char>,
    pub id: Seq<char>,
}

impl View for Envelope {
    type V = EnvelopeView;

    open spec fn view(&self) -> EnvelopeView {
        EnvelopeView {
            contract_session_id: self.contract_session_id@,
            contract_id: self.contract_id@,
            user_id: self.user_id@,
            session_id: self.session_id@,
            id: self.id@,
        }
    }
}

/// The identifier that stands for "nothing chosen".
pub open spec fn nil_id() -> Seq<char> {
    "00000000-0000-0000-0000-000000000000"@
}

/// The object without members.
pub open spec fn empty_object() -> JsonModel {
    JsonModel::Object(Map::empty())
}

/// The array without items.
pub open spec fn empty_array() -> JsonModel {
    JsonModel::Array(Seq::empty())
}

/// An event document: the name, time and details of the event together with
/// what its envelope holds and the fixed origin tag.
pub open spec fn enveloped(
    name: Seq<char>,
    timestamp: int,
    details: JsonModel,
    envelope: EnvelopeView,
) -> JsonModel {
    empty_object()
        .with_member("Name"@, JsonModel::String(name))
        .with_member("Timestamp"@, json_float(timestamp))
        .with_member("Value"@, details)
        .with_member("UserId"@, JsonModel::String(envelope.user_id))
        .with_member("Origin"@, JsonModel::String("gameclient"@))
        .with_member("ContractSessionId"@, JsonModel::String(envelope.contract_session_id))
        .with_member("ContractId"@, JsonModel::String(envelope.contract_id))
        .with_member("SessionId"@, JsonModel::String(envelope.session_id))
        .with_member("Id"@, JsonModel::String(envelope.id))
}

/// The details of a contract start: an empty loadout, no disguise, the
/// location, the session's game changers, and difficulty level 2.
pub open spec fn start_details(location_id: Seq<char>, game_changers: Seq<Seq<char>>) -> JsonModel {
    empty_object()
        .with_member("Loadout"@, empty_array())
        .with_member("Disguise"@, JsonModel::String(nil_id()))
        .with_member("LocationId"@, JsonModel::String(location_id))
        .with_member("GameChangers"@, JsonModel::strings(game_changers))
        .with_member("ContractType"@, JsonModel::String("creation"@))
        .with_member("DifficultyLevel"@, json_float(2))
        .with_member("IsHitmanSuit"@, JsonModel::Bool(true))
        .with_member("SelectedCharacterId"@, JsonModel::String(nil_id()))
}

/// The details of a kill: the target's repository id and the fixed
/// description of how it died.
pub open spec fn kill_details(repository_id: Seq<char>) -> JsonModel {
    empty_object()
        .with_member("ActorId"@, json_float(0))
        .with_member("ActorType"@, json_float(1))
        .with_member("KillType"@, json_float(1))
        .with_member("KillContext"@, json_float(1))
        .with_member("BodyPartId"@, json_float(1))
        .with_member("RoomId"@, json_float(1))
        .with_member("ExplosionType"@, json_float(1))
        .with_member("TotalDamage"@, json_float(1000))
        .with_member("Accident"@, JsonModel::Bool(true))
        .with_member("Explosive"@, JsonModel::Bool(true))
        .with_member("Projectile"@, JsonModel::Bool(true))
        .with_member("Sniper"@, JsonModel::Bool(true))
        .with_member("IsHeadshot"@, JsonModel::Bool(true))
        .with_member("IsTarget"@, JsonModel::Bool(true))
        .with_member("ThroughWall"@, JsonModel::Bool(true))
        .with_member("IsMoving"@, JsonModel::Bool(true))
        .with_member("OutfitIsHitmanSuit"@, JsonModel::Bool(true))
        .with_member("WeaponSilenced"@, JsonModel::Bool(true))
        .with_member("KillItemRepositoryId"@, JsonModel::String(""@))
        .with_member("OutfitRepositoryId"@, JsonModel::String(""@))
        .with_member("ActorName"@, JsonModel::String(""@))
        .with_member("KillClass"@, JsonModel::String(""@))
        .with_member("ActorPosition"@, JsonModel::String(origin_position()))
        .with_member("HeroPosition"@, JsonModel::String(origin_position()))
        .with_member("DamageEvents"@, empty_array())
        .with_member("PlayerId"@, json_float(0))
        .with_member("KillItemInstanceId"@, JsonModel::String(""@))
        .with_member("KillItemCategory"@, JsonModel::String(""@))
        .with_member("KillMethodBroad"@, JsonModel::String(""@))
        .with_member("KillMethodStrict"@, JsonModel::String(""@))
        .with_member("History"@, empty_array())
        .with_member("RepositoryId"@, JsonModel::String(repository_id))
}

/// The position reported for both parties of a kill: the origin.
pub open spec fn origin_position() -> Seq<char> {
    "0.0, 0.0, 0.0"@
}

/// The details of leaving: the exit's fixed name and its id.
pub open spec fn exit_details(exit_id: Seq<char>) -> JsonModel {
    empty_object()
        .with_member("name_ExitGate"@, JsonModel::String("Exit_Gate"@))
        .with_member("RepositoryId"@, JsonModel::String(exit_id))
}

/// The document that reports a contract start, at time 0.
pub open spec fn start_json(
    envelope: EnvelopeView,
    location_id: Seq<char>,
    game_changers: Seq<Seq<char>>,
) -> JsonModel {
    enveloped("ContractStart"@, 0, start_details(location_id, game_changers), envelope)
        .with_member("XboxGameMode"@, json_float(2))
        .with_member("XboxDifficulty"@, json_float(0))
}

/// The document that reports the end of the opening scene, at time 1.
pub open spec fn intro_cut_end_json(envelope: EnvelopeView) -> JsonModel {
    enveloped("IntroCutEnd"@, 1, JsonModel::String(""@), envelope)
}

/// The document that reports a kill, at time 1.
pub open spec fn kill_json(envelope: EnvelopeView, repository_id: Seq<char>) -> JsonModel {
    enveloped("Kill"@, 1, kill_details(repository_id), envelope)
}

/// The document that reports leaving through the exit, at time 2.
pub open spec fn exit_gate_json(envelope: EnvelopeView, exit_id: Seq<char>) -> JsonModel {
    enveloped("exit_gate"@, 2, exit_details(exit_id), envelope)
}

/// Whether an event document shows what its envelope holds, and the fixed
/// origin tag.
pub open spec fn carries(document: JsonModel, envelope: EnvelopeView) -> bool {
    &&& document.member("ContractSessionId"@) == JsonModel::String(envelope.contract_session_id)
    &&& document.member("ContractId"@) == JsonModel::String(envelope.contract_id)
    &&& document.member("UserId"@) == JsonModel::String(envelope.user_id)
    &&& document.member("SessionId"@) == JsonModel::String(envelope.session_id)
    &&& document.member("Id"@) == JsonModel::String(envelope.id)
    &&& document.member("Origin"@) == JsonModel::String("gameclient"@)
}

/// The keys of an event document differ from one another.
proof fn lemma_event_keys()
    ensures
        "Name"@.len() == 4,
        "Timestamp"@.len() == 9 && "Timestamp"@[0] == 'T',
        "Value"@.len() == 5,
        "UserId"@.len() == 6 && "UserId"@[0] == 'U',
        "Origin"@.len() == 6 && "Origin"@[0] == 'O',
        "ContractSessionId"@.len() == 17,
        "ContractId"@.len() == 10,
        "SessionId"@.len() == 9 && "SessionId"@[0] == 'S',
        "Id"@.len() == 2,
        "XboxGameMode"@.len() == 12,
        "XboxDifficulty"@.len() == 14,
{
    reveal_strlit("Name");
    reveal_strlit("Timestamp");
    reveal_strlit("Value");
    reveal_strlit("UserId");
    reveal_strlit("Origin");
    reveal_strlit("ContractSessionId");
    reveal_strlit("ContractId");
    reveal_strlit("SessionId");
    reveal_strlit("Id");
    reveal_strlit("XboxGameMode");
    reveal_strlit("XboxDifficulty");
}

/// Every event document has the name, time and details that it was made
/// with, and carries its envelope.
pub proof fn lemma_enveloped(
    name: Seq<char>,
    timestamp: int,
    details: JsonModel,
    envelope: EnvelopeView,
)
    ensures
        enveloped(name, timestamp, details, envelope).member("Name"@) == JsonModel::String(name),
        enveloped(name, timestamp, details, envelope).member("Timestamp"@) == json_float(timestamp),
        enveloped(name, timestamp, details, envelope).member("Value"@) == details,
        carries(enveloped(name, timestamp, details, envelope), envelope),
{
    lemma_event_keys();
}

/// Each of the four event documents carries its envelope and its own name
/// and time. A kill names its target, and the exit names itself, under
/// `RepositoryId` in the details.
pub proof fn lemma_event_documents(
    envelope: EnvelopeView,
    location_id: Seq<char>,
    game_changers: Seq<Seq<char>>,
    repository_id: Seq<char>,
    exit_id: Seq<char>,
)
    ensures
        carries(start_json(envelope, location_id, game_changers), envelope),
        start_json(envelope, location_id, game_changers).member("Name"@) == JsonModel::String(
            "ContractStart"@,
        ),
        start_json(envelope, location_id, game_changers).member("Timestamp"@) == json_float(0),
        carries(intro_cut_end_json(envelope), envelope),
        intro_cut_end_json(envelope).member("Name"@) == JsonModel::String("IntroCutEnd"@),
        intro_cut_end_json(envelope).member("Timestamp"@) == json_float(1),
        carries(kill_json(envelope, repository_id), envelope),
        kill_json(envelope, repository_id).member("Name"@) == JsonModel::String("Kill"@),
        kill_json(envelope, repository_id).member("Timestamp"@) == json_float(1),
        kill_json(envelope, repository_id).member("Value"@).member("RepositoryId"@)
            == JsonModel::String(repository_id),
        carries(exit_gate_json(envelope, exit_id), envelope),
        exit_gate_json(envelope, exit_id).member("Name"@) == JsonModel::String("exit_gate"@),
        exit_gate_json(envelope, exit_id).member("Timestamp"@) == json_float(2),
        exit_gate_json(envelope, exit_id).member("Value"@).member("RepositoryId"@)
            == JsonModel::String(exit_id),
{
    lemma_event_keys();
    lemma_enveloped("ContractStart"@, 0, start_details(location_id, game_changers), envelope);
    lemma_enveloped("IntroCutEnd"@, 1, JsonModel::String(""@), envelope);
    lemma_enveloped("Kill"@, 1, kill_details(repository_id), envelope);
    lemma_enveloped("exit_gate"@, 2, exit_details(exit_id), envelope);
}

/// Writes a string member.
fn set_text(object: &mut serde_json::Value, key: &str, text: &str)
    requires
        json_of(*old(object)).accepts_members(),
    ensures
        json_of(*final(object)) == json_of(*old(object)).with_member(
            key@,
            JsonModel::String(text@),
        ),
{
    value_set_member(object, key, value_string(text.to_owned()));
}

/// Writes a float member with a whole value.
fn set_float(object: &mut serde_json::Value, key: &str, whole: i32)
    requires
        json_of(*old(object)).accepts_members(),
    ensures
        json_of(*final(object)) == json_of(*old(object)).with_member(
            key@,
            json_float(whole as int),
        ),
{
    value_set_member(object, key, value_float(whole));
}

/// Writes a member that is `true`.
fn set_true(object: &mut serde_json::Value, key: &str)
    requires
        json_of(*old(object)).accepts_members(),
    ensures
        json_of(*final(object)) == json_of(*old(object)).with_member(key@, JsonModel::Bool(true)),
{
    value_set_member(object, key, value_bool(true));
}

/// Writes a member that is the empty array.
fn set_empty_array(object: &mut serde_json::Value, key: &str)
    requires
        json_of(*old(object)).accepts_members(),
    ensures
        json_of(*final(object)) == json_of(*old(object)).with_member(key@, empty_array()),
{
    let items: Vec<serde_json::Value> = Vec::new();
    let array = value_array(items);
    assert(json_items(items@) =~= Seq::empty());
    value_set_member(object, key, array);
}

/// The array of strings with the given texts.
pub fn strings_value(texts: &Vec<String>) -> (value: serde_json::Value)
    ensures
        json_of(value) == JsonModel::strings(texts_of(texts@)),
{
    let mut items: Vec<serde_json::Value> = Vec::new();
    let mut done: usize = 0;
    while done < texts.len()
        invariant
            done <= texts.len(),
            items@.len() == done,
            forall|i: int|
                0 <= i < done ==> json_of(#[trigger] items@[i]) == JsonModel::String(texts@[i]@),
        decreases texts.len() - done,
    {
        items.push(value_string(texts[done].clone()));
        done += 1;
    }
    let value = value_array(items);
    assert(json_items(items@) =~= texts_of(texts@).map_values(
        |text: Seq<char>| JsonModel::String(text),
    ));
    value
}

/// The event document with the given name, time and details.
fn enveloped_value(
    name: &str,
    timestamp: i32,
    details: serde_json::Value,
    envelope: &Envelope,
) -> (value: serde_json::Value)
    ensures
        json_of(value) == enveloped(name@, timestamp as int, json_of(details), envelope@),
{
    let mut value = value_object();
    set_text(&mut value, "Name", name);
    set_float(&mut value, "Timestamp", timestamp);
    value_set_member(&mut value, "Value", details);
    set_text(&mut value, "UserId", envelope.user_id.as_str());
    set_text(&mut value, "Origin", "gameclient");
    set_text(&mut value, "ContractSessionId", envelope.contract_session_id.as_str());
    set_text(&mut value, "ContractId", envelope.contract_id.as_str());
    set_text(&mut value, "SessionId", envelope.session_id.as_str());
    set_text(&mut value, "Id", envelope.id.as_str());
    value
}

/// The document that reports a contract start.
pub fn start_value(
    envelope: &Envelope,
    location_id: &String,
    game_changers: &Vec<String>,
) -> (value: serde_json::Value)
    ensures
        json_of(value) == start_json(envelope@, location_id@, texts_of(game_changers@)),
{
    let mut details = value_object();
    set_empty_array(&mut details, "Loadout");
    set_text(&mut details, "Disguise", "00000000-0000-0000-0000-000000000000");
    set_text(&mut details, "LocationId", location_id.as_str());
    value_set_member(&mut details, "GameChangers", strings_value(game_changers));
    set_text(&mut details, "ContractType", "creation");
    set_float(&mut details, "DifficultyLevel", 2);
    set_true(&mut details, "IsHitmanSuit");
    set_text(&mut details, "SelectedCharacterId", "00000000-0000-0000-0000-000000000000");
    let mut value = enveloped_value("ContractStart", 0, details, envelope);
    set_float(&mut value, "XboxGameMode", 2);
    set_float(&mut value, "XboxDifficulty", 0);
    value
}

/// The document that reports the end of the opening scene.
pub fn intro_cut_end_value(envelope: &Envelope) -> (value: serde_json::Value)
    ensures
        json_of(value) == intro_cut_end_json(envelope@),
{
    enveloped_value("IntroCutEnd", 1, value_string("".to_owned()), envelope)
}

/// The document that reports the kill of the target with `repository_id`.
pub fn kill_value(envelope: &Envelope, repository_id: &String) -> (value: serde_json::Value)
    ensures
        json_of(value) == kill_json(envelope@, repository_id@),
{
    let mut details = value_object();
    set_float(&mut details, "ActorId", 0);
    set_float(&mut details, "ActorType", 1);
    set_float(&mut details, "KillType", 1);
    set_float(&mut details, "KillContext", 1);
    set_float(&mut details, "BodyPartId", 1);
    set_float(&mut details, "RoomId", 1);
    set_float(&mut details, "ExplosionType", 1);
    set_float(&mut details, "TotalDamage", 1000);
    set_true(&mut details, "Accident");
    set_true(&mut details, "Explosive");
    set_true(&mut details, "Projectile");
    set_true(&mut details, "Sniper");
    set_true(&mut details, "IsHeadshot");
    set_true(&mut details, "IsTarget");
    set_true(&mut details, "ThroughWall");
    set_true(&mut details, "IsMoving");
    set_true(&mut details, "OutfitIsHitmanSuit");
    set_true(&mut details, "WeaponSilenced");
    set_text(&mut details, "KillItemRepositoryId", "");
    set_text(&mut details, "OutfitRepositoryId", "");
    set_text(&mut details, "ActorName", "");
    set_text(&mut details, "KillClass", "");
    set_text(&mut details, "ActorPosition", "0.0, 0.0, 0.0");
    set_text(&mut details, "HeroPosition", "0.0, 0.0, 0.0");
    set_empty_array(&mut details, "DamageEvents");
    set_float(&mut details, "PlayerId", 0);
    set_text(&mut details, "KillItemInstanceId", "");
    set_text(&mut details, "KillItemCategory", "");
    set_text(&mut details, "KillMethodBroad", "");
    set_text(&mut details, "KillMethodStrict", "");
    set_empty_array(&mut details, "History");
    set_text(&mut details, "RepositoryId", repository_id.as_str());
    enveloped_value("Kill", 1, details, envelope)
}

/// The document that reports leaving through the exit with `exit_id`.
pub fn exit_gate_value(envelope: &Envelope, exit_id: &String) -> (value: serde_json::Value)
    ensures
        json_of(value) == exit_gate_json(envelope@, exit_id@),
{
    let mut details = value_object();
    set_text(&mut details, "name_ExitGate", "Exit_Gate");
    set_text(&mut details, "RepositoryId", exit_id.as_str());
    enveloped_value("exit_gate", 2, details, envelope)
}

} // verus!
