//! The publishing protocol as mathematics: the four requests, the event
//! documents, and the step from one stage of an attempt to the next.
//!
//! An attempt runs through its stages in one direction only:
//! `Init`, `SessionAcquired`, `EventsEmitted`, `ShellCreated`, `Finalized`.
//! Each answer of the backend moves it one stage on; a failure ends it.
//! What belongs to an attempt, its session token and the play session that
//! the backend opens for it, is made anew when an attempt begins.

use vstd::prelude::*;
use crate::document::{
    creation_body, exit_id, lemma_creation_body, mission_id, mission_name, no_session, page_ids,
    session_of, target_ids, SessionView,
};
use crate::error::PublishError;
use crate::event::{
    carries, empty_array, empty_object, event_plan, exit_gate_json, intro_cut_end_json,
    is_event_id, kill_json, lemma_event_documents, lemma_plan_reports_each_target, start_json,
    EnvelopeView, EventView,
};
use crate::json::{json_integer, json_parse, json_text, JsonModel};
use crate::request::{HeaderView, Method, Request, RequestView};
use crate::services::Services;
use crate::PublishTypes;

verus! {

/// How far a publish attempt has come.
#[derive(Debug, Clone, Copy, PartialEq, Eq, Structural)]
pub enum Stage {
    /// No answer has been taken in yet.
    Init,
    /// The backend has opened a play session.
    SessionAcquired,
    /// The backend has taken the events.
    EventsEmitted,
    /// The backend has handed out an empty contract record.
    ShellCreated,
    /// The record has been filled in: the contract is published.
    Finalized,
}

/// What the caller is to do next.
#[derive(Debug)]
pub enum Step {
    /// Send this request and come back with the answer's body.
    Send(Request),
    /// Nothing: the contract is published.
    Done,
}

/// A step as a mathematical value.
pub enum StepView {
    Send(RequestView),
    Done,
}

impl View for Step {
    type V = StepView;

    open spec fn view(&self) -> StepView {
        match self {
            Step::Send(request) => StepView::Send(request@),
            Step::Done => StepView::Done,
        }
    }
}

/// A contract on its way to the backend, as a mathematical value.
pub struct ContractView {
    /// The contract document.
    pub document: JsonModel,
    /// The backend that the contract goes to.
    pub backend: PublishTypes,
    /// The client's session token.
    pub session_id: Seq<char>,
    /// What the backend last answered to a session request.
    pub session: SessionView,
    /// How far the current attempt has come.
    pub stage: Stage,
}

impl ContractView {
    /// The same contract at another stage.
    pub open spec fn at(self, stage: Stage) -> ContractView {
        ContractView {
            document: self.document,
            backend: self.backend,
            session_id: self.session_id,
            session: self.session,
            stage,
        }
    }

    /// The same contract in another play session.
    pub open spec fn within(self, session: SessionView) -> ContractView {
        ContractView {
            document: self.document,
            backend: self.backend,
            session_id: self.session_id,
            session,
            stage: self.stage,
        }
    }

    /// The contract as a new attempt begins on it: the attempt has its own
    /// session token, no session yet, and stands at the first stage.
    pub open spec fn begun(self, token: Seq<char>) -> ContractView {
        ContractView {
            document: self.document,
            backend: self.backend,
            session_id: token,
            session: no_session(),
            stage: Stage::Init,
        }
    }

    /// The same contract on its way to another backend.
    pub open spec fn toward(self, backend: PublishTypes) -> ContractView {
        ContractView {
            document: self.document,
            backend,
            session_id: self.session_id,
            session: self.session,
            stage: self.stage,
        }
    }

    /// The endpoints of the contract's backend.
    pub open spec fn services(self) -> Services {
        Services::spec_of(self.backend)
    }
}

// ---------------------------------------------------------------------------
// The four requests.
// ---------------------------------------------------------------------------

/// The body of a session request: the mission, no location, no extra game
/// changers, difficulty level 2.
pub open spec fn session_body(mission_id: Seq<char>) -> JsonModel {
    empty_object()
        .with_member("id"@, JsonModel::String(mission_id))
        .with_member("locationId"@, JsonModel::String(""@))
        .with_member("extraGameChangerIds"@, empty_array())
        .with_member("difficultyLevel"@, json_integer(2))
}

/// The request that acquires a play session.
pub open spec fn session_request(
    services: Services,
    bearer: Seq<char>,
    mission_id: Seq<char>,
) -> RequestView {
    RequestView {
        method: Method::Post,
        url: services.getforplay2@,
        bearer,
        headers: Seq::empty(),
        body: Some(json_text(session_body(mission_id))),
    }
}

/// The body of an events request: the user and the event documents.
pub open spec fn events_body(user_id: Seq<char>, documents: Seq<JsonModel>) -> JsonModel {
    empty_object()
        .with_member("userId"@, JsonModel::String(user_id))
        .with_member("values"@, JsonModel::Array(documents))
}

/// The request that reports events.
pub open spec fn events_request(
    services: Services,
    bearer: Seq<char>,
    user_id: Seq<char>,
    documents: Seq<JsonModel>,
) -> RequestView {
    RequestView {
        method: Method::Post,
        url: services.saveevents2@,
        bearer,
        headers: Seq::empty(),
        body: Some(json_text(events_body(user_id, documents))),
    }
}

/// The request that asks for an empty contract record. It announces the
/// client version that goes with the backend.
pub open spec fn page_request(backend: PublishTypes, bearer: Seq<char>) -> RequestView {
    RequestView {
        method: Method::Get,
        url: Services::spec_of(backend).contractcreatepage@,
        bearer,
        headers: seq![HeaderView { name: "Version"@, value: backend.spec_version()@ }],
        body: None,
    }
}

/// The request that fills in a contract record.
pub open spec fn finalize_request(
    services: Services,
    bearer: Seq<char>,
    body: JsonModel,
) -> RequestView {
    RequestView {
        method: Method::Post,
        url: services.createfromparams@,
        bearer,
        headers: seq![
            HeaderView { name: "Content-Type"@, value: "application/json; charset=utf-8"@ },
        ],
        body: Some(json_text(body)),
    }
}

// ---------------------------------------------------------------------------
// The event documents of a contract.
// ---------------------------------------------------------------------------

/// Why an event of a contract cannot be reported: every event needs the
/// mission id, the start also the mission's name, the exit also the exit's
/// id. The mission id is looked at first.
pub open spec fn event_failure(document: JsonModel, event: EventView) -> Option<PublishError> {
    if mission_id(document) is None {
        Some(PublishError::MissingMissionId)
    } else {
        match event {
            EventView::ContractStart => if mission_name(document) is None {
                Some(PublishError::MissingMissionName)
            } else {
                None
            },
            EventView::ExitGate => if exit_id(document) is None {
                Some(PublishError::MissingExitId)
            } else {
                None
            },
            _ => None,
        }
    }
}

/// Why a sequence of events cannot be reported: the failure of the first
/// event that has one.
pub open spec fn first_failure(document: JsonModel, events: Seq<EventView>) -> Option<PublishError>
    decreases events.len(),
{
    if events.len() == 0 {
        None
    } else {
        match event_failure(document, events.first()) {
            Some(error) => Some(error),
            None => first_failure(document, events.drop_first()),
        }
    }
}

/// What an event of a contract carries beside its details.
pub open spec fn envelope_of(
    contract: ContractView,
    user_id: Seq<char>,
    id: Seq<char>,
) -> EnvelopeView {
    EnvelopeView {
        contract_session_id: contract.session.contract_session_id,
        contract_id: mission_id(contract.document)->0,
        user_id,
        session_id: contract.session_id,
        id,
    }
}

/// The document that reports an event of a contract under the identifier
/// `id`. It is meaningful where the event has no failure; an event without
/// a JSON form has the document `Null`.
pub open spec fn event_document(
    contract: ContractView,
    user_id: Seq<char>,
    event: EventView,
    id: Seq<char>,
) -> JsonModel {
    let envelope = envelope_of(contract, user_id, id);
    match event {
        EventView::ContractStart => start_json(
            envelope,
            mission_name(contract.document)->0,
            contract.session.game_changers,
        ),
        EventView::IntroCutEnd => intro_cut_end_json(envelope),
        EventView::Kill { repository_id } => kill_json(envelope, repository_id),
        EventView::ExitGate => exit_gate_json(envelope, exit_id(contract.document)->0),
        EventView::AllBodiesHidden => JsonModel::Null,
    }
}

/// The documents that report a sequence of events, the i-th under the i-th
/// identifier.
pub open spec fn event_documents(
    contract: ContractView,
    user_id: Seq<char>,
    events: Seq<EventView>,
    ids: Seq<Seq<char>>,
) -> Seq<JsonModel> {
    Seq::new(events.len(), |i: int| event_document(contract, user_id, events[i], ids[i]))
}

/// Whether `ids` are identifiers for `count` events.
pub open spec fn are_event_ids(ids: Seq<Seq<char>>, count: nat) -> bool {
    &&& ids.len() == count
    &&& forall|i: int| 0 <= i < ids.len() ==> is_event_id(#[trigger] ids[i])
}

/// Whether every event of the sequence has a JSON form.
pub open spec fn all_reportable(events: Seq<EventView>) -> bool {
    forall|i: int| 0 <= i < events.len() ==> !((#[trigger] events[i]) is AllBodiesHidden)
}

// ---------------------------------------------------------------------------
// One step of publishing.
// ---------------------------------------------------------------------------

/// Why the answer to the session request ends the attempt: it is no JSON
/// document, it does not describe a session, the contract's targets cannot
/// be read, or an event of the planned playthrough cannot be reported. The
/// reasons are looked for in this order.
pub open spec fn session_failure(document: JsonModel, answer: Seq<char>) -> Option<PublishError> {
    match json_parse(answer) {
        None => Some(PublishError::MalformedJson),
        Some(answer) => match session_of(answer) {
            Err(error) => Some(error),
            Ok(_) => match target_ids(document) {
                None => Some(PublishError::InvalidTargets),
                Some(targets) => first_failure(document, event_plan(targets)),
            },
        },
    }
}

/// Why the contract creation page ends the attempt: it is no JSON document,
/// it lacks one of the record's ids, or the contract's creation parameters
/// cannot take the ids. The reasons are looked for in this order.
pub open spec fn page_failure(document: JsonModel, page: Seq<char>) -> Option<PublishError> {
    match json_parse(page) {
        None => Some(PublishError::MalformedJson),
        Some(page) => match page_ids(page) {
            None => Some(PublishError::InvalidContractPage),
            Some(ids) => if creation_body(document, ids) is None {
                Some(PublishError::InvalidCreationParams)
            } else {
                None
            },
        },
    }
}

/// Why a step fails, or `None` where it succeeds. To begin an attempt the
/// contract must name its mission. The answers to the events request and to
/// the last request are not looked at, so the steps after them never fail.
pub open spec fn publish_failure(
    contract: ContractView,
    answer: Option<Seq<char>>,
) -> Option<PublishError> {
    match answer {
        None => if mission_id(contract.document) is None {
            Some(PublishError::MissingMissionId)
        } else {
            None
        },
        Some(answer) => match contract.stage {
            Stage::Init => session_failure(contract.document, answer),
            Stage::EventsEmitted => page_failure(contract.document, answer),
            _ => None,
        },
    }
}

/// The session that the answer to a session request describes.
pub open spec fn answered_session(answer: Seq<char>) -> SessionView {
    session_of(json_parse(answer)->0)->Ok_0
}

/// The request that reports the planned playthrough of a contract, the
/// i-th event under the i-th of `ids`.
pub open spec fn playthrough_request(
    contract: ContractView,
    user_id: Seq<char>,
    bearer: Seq<char>,
    ids: Seq<Seq<char>>,
) -> RequestView {
    events_request(
        contract.services(),
        bearer,
        user_id,
        event_documents(contract, user_id, event_plan(target_ids(contract.document)->0), ids),
    )
}

/// The request that fills in the record that a contract creation page
/// describes: it carries the contract's creation parameters with the ids
/// from this page.
pub open spec fn record_request(
    contract: ContractView,
    bearer: Seq<char>,
    page: Seq<char>,
) -> RequestView {
    finalize_request(
        contract.services(),
        bearer,
        creation_body(contract.document, page_ids(json_parse(page)->0)->0)->0,
    )
}

/// The contract after a step that succeeds. To begin an attempt puts the
/// contract at `Init`, without a session and with `token`, the session
/// token drawn for the attempt. Each answer moves the attempt one stage on
/// and leaves its token alone; the answer to the session request also
/// brings the session. A published contract stays published.
pub open spec fn publish_next(
    contract: ContractView,
    answer: Option<Seq<char>>,
    token: Seq<char>,
) -> ContractView {
    match answer {
        None => contract.begun(token),
        Some(answer) => match contract.stage {
            Stage::Init => contract.within(answered_session(answer)).at(Stage::SessionAcquired),
            Stage::SessionAcquired => contract.at(Stage::EventsEmitted),
            Stage::EventsEmitted => contract.at(Stage::ShellCreated),
            Stage::ShellCreated => contract.at(Stage::Finalized),
            Stage::Finalized => contract,
        },
    }
}

/// What the caller is to do after a step that succeeds. `ids` are the
/// identifiers of the events, where the step hands out the events request.
pub open spec fn publish_action(
    contract: ContractView,
    user_id: Seq<char>,
    bearer: Seq<char>,
    answer: Option<Seq<char>>,
    ids: Seq<Seq<char>>,
) -> StepView {
    match answer {
        None => StepView::Send(
            session_request(contract.services(), bearer, mission_id(contract.document)->0),
        ),
        Some(answer) => match contract.stage {
            Stage::Init => StepView::Send(
                playthrough_request(
                    contract.within(answered_session(answer)),
                    user_id,
                    bearer,
                    ids,
                ),
            ),
            Stage::SessionAcquired => StepView::Send(page_request(contract.backend, bearer)),
            Stage::EventsEmitted => StepView::Send(record_request(contract, bearer, answer)),
            Stage::ShellCreated => StepView::Done,
            Stage::Finalized => StepView::Done,
        },
    }
}

/// The number of events that a step reports: those of the planned
/// playthrough where the step follows the answer to the session request,
/// none otherwise.
pub open spec fn reported_events(contract: ContractView, answer: Option<Seq<char>>) -> nat {
    if answer is Some && contract.stage == Stage::Init {
        event_plan(target_ids(contract.document)->0).len()
    } else {
        0
    }
}

/// The place of a stage in an attempt.
pub open spec fn stage_rank(stage: Stage) -> int {
    match stage {
        Stage::Init => 0,
        Stage::SessionAcquired => 1,
        Stage::EventsEmitted => 2,
        Stage::ShellCreated => 3,
        Stage::Finalized => 4,
    }
}

/// No step changes the document or the backend of a contract. To begin an
/// attempt puts the contract at the first stage, gives it the token drawn
/// for the attempt, and takes the session of the attempt before away. An
/// answer moves the attempt exactly one stage on until the contract is
/// published, and never back; it keeps the attempt's token, and it keeps
/// the session but where it is the answer that brings the session.
pub proof fn lemma_stages_advance(
    contract: ContractView,
    answer: Option<Seq<char>>,
    token: Seq<char>,
)
    ensures
        publish_next(contract, answer, token).document == contract.document,
        publish_next(contract, answer, token).backend == contract.backend,
        answer is None ==> publish_next(contract, answer, token).stage == Stage::Init,
        answer is None ==> publish_next(contract, answer, token).session_id == token,
        answer is None ==> publish_next(contract, answer, token).session == no_session(),
        answer is Some ==> publish_next(contract, answer, token).session_id == contract.session_id,
        answer is Some && contract.stage != Stage::Finalized ==> stage_rank(
            publish_next(contract, answer, token).stage,
        ) == stage_rank(contract.stage) + 1,
        answer is Some && contract.stage == Stage::Finalized ==> publish_next(
            contract,
            answer,
            token,
        ) == contract,
        answer is Some && contract.stage != Stage::Init ==> publish_next(
            contract,
            answer,
            token,
        ).session == contract.session,
{
}

/// The four endpoints of a backend differ from one another.
pub proof fn lemma_endpoints_differ(backend: PublishTypes)
    ensures
        Services::spec_of(backend).getforplay2@ != Services::spec_of(backend).saveevents2@,
        Services::spec_of(backend).getforplay2@ != Services::spec_of(backend).contractcreatepage@,
        Services::spec_of(backend).getforplay2@ != Services::spec_of(backend).createfromparams@,
        Services::spec_of(backend).saveevents2@ != Services::spec_of(backend).contractcreatepage@,
        Services::spec_of(backend).saveevents2@ != Services::spec_of(backend).createfromparams@,
        Services::spec_of(backend).contractcreatepage@ != Services::spec_of(
            backend,
        ).createfromparams@,
{
    lemma_endpoint_texts();
}

/// The lengths of the endpoints, and the character in which the two
/// backends' host names first differ.
proof fn lemma_endpoint_texts()
    ensures
        Services::spec_hitman2().getforplay2@.len() == 89,
        Services::spec_hitman2().saveevents2@.len() == 86,
        Services::spec_hitman2().contractcreatepage@.len() == 67,
        Services::spec_hitman2().createfromparams@.len() == 94,
        Services::spec_hitman3().getforplay2@.len() == 89,
        Services::spec_hitman3().saveevents2@.len() == 86,
        Services::spec_hitman3().contractcreatepage@.len() == 67,
        Services::spec_hitman3().createfromparams@.len() == 94,
        Services::spec_hitman2().getforplay2@[8] == 'p',
        Services::spec_hitman2().saveevents2@[8] == 'p',
        Services::spec_hitman2().contractcreatepage@[8] == 'p',
        Services::spec_hitman2().createfromparams@[8] == 'p',
        Services::spec_hitman3().getforplay2@[8] == 'h',
        Services::spec_hitman3().saveevents2@[8] == 'h',
        Services::spec_hitman3().contractcreatepage@[8] == 'h',
        Services::spec_hitman3().createfromparams@[8] == 'h',
{
    reveal_strlit(
        "https://pc2-service.hitman.io/authentication/api/userchannel/ContractsService/GetForPlay2",
    );
    reveal_strlit(
        "https://pc2-service.hitman.io/authentication/api/userchannel/EventsService/SaveEvents2",
    );
    reveal_strlit("https://pc2-service.hitman.io/profiles/page/contractcreation/create");
    reveal_strlit(
        "https://pc2-service.hitman.io/authentication/api/userchannel/ContractsService/CreateFromParams",
    );
    reveal_strlit(
        "https://hm3-service.hitman.io/authentication/api/userchannel/ContractsService/GetForPlay2",
    );
    reveal_strlit(
        "https://hm3-service.hitman.io/authentication/api/userchannel/EventsService/SaveEvents2",
    );
    reveal_strlit("https://hm3-service.hitman.io/profiles/page/contractcreation/create");
    reveal_strlit(
        "https://hm3-service.hitman.io/authentication/api/userchannel/ContractsService/CreateFromParams",
    );
}

/// An attempt that succeeds runs through the five stages in their order and
/// hands out its four requests in one order: to the session endpoint, to
/// the events endpoint, to the contract creation page, and to the endpoint
/// that fills the record in. After that nothing is left to send. The
/// attempt has one session token from its beginning to its end. The last
/// request carries the ids that the contract creation page handed out, and
/// no others.
pub proof fn lemma_attempt_in_order(
    contract: ContractView,
    user_id: Seq<char>,
    bearer: Seq<char>,
    session_answer: Seq<char>,
    events_answer: Seq<char>,
    page: Seq<char>,
    last_answer: Seq<char>,
    token: Seq<char>,
    ids: Seq<Seq<char>>,
)
    requires
        publish_failure(contract, None) is None,
        session_failure(contract.document, session_answer) is None,
        page_failure(contract.document, page) is None,
    ensures
        ({
            let begun = publish_next(contract, None, token);
            let in_session = publish_next(begun, Some(session_answer), token);
            let reported = publish_next(in_session, Some(events_answer), token);
            let created = publish_next(reported, Some(page), token);
            let published = publish_next(created, Some(last_answer), token);
            let services = contract.services();
            let record_ids = page_ids(json_parse(page)->0)->0;
            let record = creation_body(contract.document, record_ids)->0;
            &&& begun.stage == Stage::Init
            &&& in_session.stage == Stage::SessionAcquired
            &&& reported.stage == Stage::EventsEmitted
            &&& created.stage == Stage::ShellCreated
            &&& published.stage == Stage::Finalized
            &&& begun.session_id == token
            &&& in_session.session_id == token
            &&& reported.session_id == token
            &&& created.session_id == token
            &&& published.session_id == token
            &&& publish_failure(begun, Some(session_answer)) is None
            &&& publish_failure(in_session, Some(events_answer)) is None
            &&& publish_failure(reported, Some(page)) is None
            &&& publish_failure(created, Some(last_answer)) is None
            &&& publish_action(contract, user_id, bearer, None, ids) matches StepView::Send(first)
                && first.url == services.getforplay2@
            &&& publish_action(begun, user_id, bearer, Some(session_answer), ids)
                matches StepView::Send(second) && second.url == services.saveevents2@
            &&& publish_action(in_session, user_id, bearer, Some(events_answer), ids)
                matches StepView::Send(third) && third.url == services.contractcreatepage@
            &&& publish_action(reported, user_id, bearer, Some(page), ids) matches StepView::Send(
                fourth,
            ) && fourth.url == services.createfromparams@ && fourth.body == Some(json_text(record))
            &&& record.member("creationData"@).member("ContractId"@) == JsonModel::String(
                record_ids.contract_id,
            )
            &&& record.member("creationData"@).member("ContractPublicId"@) == JsonModel::String(
                record_ids.public_id,
            )
            &&& publish_action(created, user_id, bearer, Some(last_answer), ids) == StepView::Done
        }),
{
    let record_ids = page_ids(json_parse(page)->0)->0;
    lemma_creation_body(contract.document, record_ids);
}

/// Without a session id in the answer to the session request, the step
/// that takes this answer in fails. No request is handed out: not the
/// events request, and none of those that follow it.
pub proof fn lemma_no_session_no_request(contract: ContractView, answer: Seq<char>)
    requires
        contract.stage == Stage::Init,
        json_parse(answer) matches Some(document) && document.member("ContractSessionId"@).text()
            is None,
    ensures
        publish_failure(contract, Some(answer)) == Some(PublishError::MissingSessionId),
{
}

/// Before a session is acquired, a step hands out nothing but the session
/// request, or, on an answer that names a session, the events request for
/// that session. The requests for the contract record are out of reach.
pub proof fn lemma_first_stage_requests(
    contract: ContractView,
    user_id: Seq<char>,
    bearer: Seq<char>,
    answer: Option<Seq<char>>,
    token: Seq<char>,
    ids: Seq<Seq<char>>,
)
    requires
        contract.stage == Stage::Init,
        publish_failure(contract, answer) is None,
    ensures
        publish_action(contract, user_id, bearer, answer, ids) matches StepView::Send(request)
            && match answer {
            None => request.url == contract.services().getforplay2@ && publish_next(
                contract,
                answer,
                token,
            ).stage == Stage::Init,
            Some(answer) => {
                &&& request.url == contract.services().saveevents2@
                &&& json_parse(answer) matches Some(document) && document.member(
                    "ContractSessionId"@,
                ).text() == Some(
                    publish_next(contract, Some(answer), token).session.contract_session_id,
                )
                &&& publish_next(contract, Some(answer), token).stage == Stage::SessionAcquired
            },
        },
{
}

/// Whether two requests are one request sent to two backends: they agree
/// in everything but the endpoint and the announced client version.
pub open spec fn same_call(second: RequestView, third: RequestView) -> bool {
    &&& second.method == third.method
    &&& second.bearer == third.bearer
    &&& second.body == third.body
    &&& {
        ||| second.url == Services::spec_hitman2().getforplay2@ && third.url
            == Services::spec_hitman3().getforplay2@
        ||| second.url == Services::spec_hitman2().saveevents2@ && third.url
            == Services::spec_hitman3().saveevents2@
        ||| second.url == Services::spec_hitman2().contractcreatepage@ && third.url
            == Services::spec_hitman3().contractcreatepage@
        ||| second.url == Services::spec_hitman2().createfromparams@ && third.url
            == Services::spec_hitman3().createfromparams@
    }
    &&& {
        ||| second.headers == third.headers
        ||| second.headers == seq![HeaderView { name: "Version"@, value: "7.17.0"@ }]
            && third.headers == seq![HeaderView { name: "Version"@, value: "8.7.0"@ }]
    }
}

/// The two backends are driven alike. A step fails for the one exactly
/// where it fails for the other; with the same token drawn it leaves the
/// contract at the same stage and in the same session; and what it hands
/// out differs in nothing but
/// the endpoint and, on the request for the contract creation page, the
/// announced client version.
pub proof fn lemma_backends_alike(
    contract: ContractView,
    user_id: Seq<char>,
    bearer: Seq<char>,
    answer: Option<Seq<char>>,
    token: Seq<char>,
    ids: Seq<Seq<char>>,
)
    ensures
        ({
            let second = contract.toward(PublishTypes::HITMAN2);
            let third = contract.toward(PublishTypes::HITMAN3);
            &&& publish_failure(second, answer) == publish_failure(third, answer)
            &&& publish_next(third, answer, token) == publish_next(second, answer, token).toward(
                PublishTypes::HITMAN3,
            )
            &&& publish_failure(second, answer) is None ==> match (
                publish_action(second, user_id, bearer, answer, ids),
                publish_action(third, user_id, bearer, answer, ids),
            ) {
                (StepView::Send(second), StepView::Send(third)) => same_call(second, third),
                (StepView::Done, StepView::Done) => true,
                _ => false,
            }
        }),
{
    let second = contract.toward(PublishTypes::HITMAN2);
    let third = contract.toward(PublishTypes::HITMAN3);
    if let Some(text) = answer {
        if contract.stage == Stage::Init {
            let session = answered_session(text);
            let plan = event_plan(target_ids(contract.document)->0);
            assert(event_documents(second.within(session), user_id, plan, ids)
                =~= event_documents(third.within(session), user_id, plan, ids));
        }
    }
}

/// The two backends differ in each of their endpoints and in the client
/// version that is announced to them.
pub proof fn lemma_backends_differ()
    ensures
        Services::spec_hitman2().getforplay2@ != Services::spec_hitman3().getforplay2@,
        Services::spec_hitman2().saveevents2@ != Services::spec_hitman3().saveevents2@,
        Services::spec_hitman2().contractcreatepage@
            != Services::spec_hitman3().contractcreatepage@,
        Services::spec_hitman2().createfromparams@ != Services::spec_hitman3().createfromparams@,
        PublishTypes::HITMAN2.spec_version()@ != PublishTypes::HITMAN3.spec_version()@,
{
    lemma_endpoint_texts();
    reveal_strlit("7.17.0");
    reveal_strlit("8.7.0");
    assert("7.17.0"@.len() != "8.7.0"@.len());
}

/// The events request of a step reports the contract's targets as kills,
/// one document for each target and in the targets' order, after the two
/// opening events and before the exit.
pub proof fn lemma_playthrough_reports_targets(
    contract: ContractView,
    user_id: Seq<char>,
    ids: Seq<Seq<char>>,
)
    requires
        target_ids(contract.document) is Some,
    ensures
        ({
            let targets = target_ids(contract.document)->0;
            let documents = event_documents(contract, user_id, event_plan(targets), ids);
            &&& documents.len() == targets.len() + 3
            &&& documents[0] == event_document(contract, user_id, EventView::ContractStart, ids[0])
            &&& documents[1] == event_document(contract, user_id, EventView::IntroCutEnd, ids[1])
            &&& forall|i: int|
                0 <= i < targets.len() ==> #[trigger] documents[2 + i] == kill_json(
                    envelope_of(contract, user_id, ids[2 + i]),
                    targets[i],
                )
            &&& documents.last() == event_document(
                contract,
                user_id,
                EventView::ExitGate,
                ids[targets.len() as int + 2],
            )
        }),
{
    lemma_plan_reports_each_target(target_ids(contract.document)->0);
}

/// Every event that an attempt reports carries the attempt's session
/// token, one and the same for all of them, beside the play session, the
/// mission, the user and its own identifier.
pub proof fn lemma_playthrough_carries_token(
    contract: ContractView,
    user_id: Seq<char>,
    ids: Seq<Seq<char>>,
)
    requires
        target_ids(contract.document) is Some,
    ensures
        ({
            let plan = event_plan(target_ids(contract.document)->0);
            let documents = event_documents(contract, user_id, plan, ids);
            forall|i: int|
                0 <= i < documents.len() ==> {
                    &&& (#[trigger] documents[i]).member("SessionId"@) == JsonModel::String(
                        contract.session_id,
                    )
                    &&& carries(documents[i], envelope_of(contract, user_id, ids[i]))
                }
        }),
{
    let targets = target_ids(contract.document)->0;
    let plan = event_plan(targets);
    let documents = event_documents(contract, user_id, plan, ids);
    lemma_plan_reports_each_target(targets);
    assert forall|i: int| 0 <= i < documents.len() implies {
        &&& (#[trigger] documents[i]).member("SessionId"@) == JsonModel::String(contract.session_id)
        &&& carries(documents[i], envelope_of(contract, user_id, ids[i]))
    } by {
        let envelope = envelope_of(contract, user_id, ids[i]);
        let repository_id = if 2 <= i < targets.len() + 2 {
            targets[i - 2]
        } else {
            Seq::empty()
        };
        lemma_event_documents(
            envelope,
            mission_name(contract.document)->0,
            contract.session.game_changers,
            repository_id,
            exit_id(contract.document)->0,
        );
        if 2 <= i < targets.len() + 2 {
            assert(plan[2 + (i - 2)] == (EventView::Kill { repository_id: targets[i - 2] }));
        }
    }
}

/// The text of an answer, if there is one.
pub open spec fn answer_text(answer: Option<&str>) -> Option<Seq<char>> {
    match answer {
        Some(text) => Some(text@),
        None => None,
    }
}

} // verus!
