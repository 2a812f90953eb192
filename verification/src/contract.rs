//! A contract on its way to the backend.
//!
//! Publishing takes four calls, each built from the answer to the one
//! before: acquire a play session, report the events of a playthrough, ask
//! for an empty contract record, fill the record in. [`Contract`] keeps
//! track of how far an attempt has come. [`Contract::publish_contract`]
//! takes the backend's last answer and says what to send next; the caller
//! sends it and comes back with the answer.

use vstd::prelude::*;
use crate::document::{
    creation_body, creation_value, exit_id, mission_id, mission_name, page_ids, read_json,
    no_session, read_page_ids, read_target_ids, read_text, target_ids, Get4PlayResponse,
};
use crate::error::PublishError;
use crate::event::{
    event_plan, events_of, exit_gate_value, fresh_event_id, intro_cut_end_value, kill_value,
    lemma_plan_reports_each_target, plan_events, start_value, Envelope, Event,
};
use crate::json::{
    json_items, json_of, value_array, value_integer, value_object, value_set_member,
    value_string, value_to_string,
};
use crate::protocol::{
    all_reportable, answer_text, are_event_ids, event_document, event_documents, event_failure,
    events_request, finalize_request, first_failure, page_request, publish_action,
    publish_failure, publish_next, reported_events, session_request, ContractView, Stage, Step,
};
use crate::request::{Header, HeaderView, Request};
use crate::services::Services;
use crate::token::{get_random_session_id, is_session_token};
use crate::PublishTypes;

verus! {

/// A contract on its way to one backend.
pub struct Contract {
    contract_json: serde_json::Value,
    services: Services,
    get4play: Get4PlayResponse,
    session_id: String,
    backend: PublishTypes,
    stage: Stage,
}

/// The view leaves the endpoints out: they are those of the backend, which
/// the view holds.
impl View for Contract {
    type V = ContractView;

    closed spec fn view(&self) -> ContractView {
        ContractView {
            document: json_of(self.contract_json),
            backend: self.backend,
            session_id: self.session_id@,
            session: self.get4play@,
            stage: self.stage,
        }
    }
}

impl Contract {
    /// The endpoints are those of the backend, and the session token has
    /// the shape of one.
    #[verifier::type_invariant]
    spec fn well_formed(&self) -> bool {
        &&& self.services == Services::spec_of(self.backend)
        &&& is_session_token(self.session_id@)
    }

    /// A contract for the given document and backend, with a fresh session
    /// token and no attempt begun.
    pub fn from_contract_json(contract: serde_json::Value, hitman_service: PublishTypes) -> (made:
        Result<Contract, PublishError>)
        ensures
            made matches Ok(made) && made@.document == json_of(contract) && made@.backend
                == hitman_service && made@.stage == Stage::Init && made@.session == no_session()
                && is_session_token(made@.session_id),
    {
        Ok(
            Contract {
                contract_json: contract,
                services: Services::of(hitman_service),
                get4play: Get4PlayResponse::new(),
                session_id: get_random_session_id(),
                backend: hitman_service,
                stage: Stage::Init,
            },
        )
    }

    /// How far the current attempt has come.
    pub fn stage(&self) -> (stage: Stage)
        ensures
            stage == self@.stage,
    {
        self.stage
    }

    /// The backend that the contract goes to.
    pub fn backend(&self) -> (backend: PublishTypes)
        ensures
            backend == self@.backend,
    {
        self.backend
    }

    /// The client's session token.
    pub fn session_id(&self) -> (token: &String)
        ensures
            token@ == self@.session_id,
            is_session_token(token@),
    {
        proof {
            use_type_invariant(self);
        }
        &self.session_id
    }

    /// The mission that the contract document names.
    pub fn get_contract_id(&self) -> (id: Result<String, PublishError>)
        ensures
            match id {
                Ok(id) => mission_id(self@.document) == Some(id@),
                Err(error) => error == PublishError::MissingMissionId && mission_id(self@.document)
                    is None,
            },
    {
        match read_text(&self.contract_json, "MissionId") {
            Some(id) => Ok(id),
            None => Err(PublishError::MissingMissionId),
        }
    }

    /// The exit that the contract document names.
    pub fn get_exit_id(&self) -> (id: Result<String, PublishError>)
        ensures
            match id {
                Ok(id) => exit_id(self@.document) == Some(id@),
                Err(error) => error == PublishError::MissingExitId && exit_id(self@.document)
                    is None,
            },
    {
        match read_text(&self.contract_json, "ExitId") {
            Some(id) => Ok(id),
            None => Err(PublishError::MissingExitId),
        }
    }

    /// The location of the contract: the name of its mission.
    pub fn get_location_id(&self) -> (id: Result<String, PublishError>)
        ensures
            match id {
                Ok(id) => mission_name(self@.document) == Some(id@),
                Err(error) => error == PublishError::MissingMissionName && mission_name(
                    self@.document,
                ) is None,
            },
    {
        match read_text(&self.contract_json, "MissionName") {
            Some(id) => Ok(id),
            None => Err(PublishError::MissingMissionName),
        }
    }

    /// The request that acquires a play session for the contract.
    pub fn get_for_play2(&self, bearer: &String) -> (request: Result<Request, PublishError>)
        ensures
            match request {
                Ok(request) => mission_id(self@.document) is Some && request@ == session_request(
                    self@.services(),
                    bearer@,
                    mission_id(self@.document)->0,
                ),
                Err(error) => error == PublishError::MissingMissionId && mission_id(self@.document)
                    is None,
            },
    {
        proof {
            use_type_invariant(self);
        }
        let id = match self.get_contract_id() {
            Ok(id) => id,
            Err(error) => {
                return Err(error);
            },
        };
        let mut body = value_object();
        value_set_member(&mut body, "id", value_string(id));
        value_set_member(&mut body, "locationId", value_string("".to_owned()));
        let none: Vec<serde_json::Value> = Vec::new();
        assert(json_items(none@) =~= Seq::empty());
        value_set_member(&mut body, "extraGameChangerIds", value_array(none));
        value_set_member(&mut body, "difficultyLevel", value_integer(2));
        let request = Request::post(
            self.services.getforplay2,
            bearer,
            Vec::new(),
            value_to_string(&body),
        );
        assert(request@.headers =~= Seq::empty());
        Ok(request)
    }

    /// The document that reports `event` under the identifier `id`, within
    /// the play session that the backend last opened.
    pub fn event_json(&self, event: &Event, user_id: &String, id: String) -> (document: Result<
        serde_json::Value,
        PublishError,
    >)
        requires
            !(event is AllBodiesHiddenEvent),
        ensures
            match document {
                Ok(document) => event_failure(self@.document, event@) is None && json_of(document)
                    == event_document(self@, user_id@, event@, id@),
                Err(error) => event_failure(self@.document, event@) == Some(error),
            },
    {
        self.event_json_within(&self.get4play, event, user_id, id)
    }

    /// The document that reports `event` within the given play session.
    fn event_json_within(
        &self,
        session: &Get4PlayResponse,
        event: &Event,
        user_id: &String,
        id: String,
    ) -> (document: Result<serde_json::Value, PublishError>)
        requires
            !(event is AllBodiesHiddenEvent),
        ensures
            match document {
                Ok(document) => event_failure(self@.document, event@) is None && json_of(document)
                    == event_document(self@.within(session@), user_id@, event@, id@),
                Err(error) => event_failure(self@.document, event@) == Some(error),
            },
    {
        let contract_id = match self.get_contract_id() {
            Ok(id) => id,
            Err(error) => {
                return Err(error);
            },
        };
        let envelope = Envelope {
            contract_session_id: session.contract_session_id.clone(),
            contract_id,
            user_id: user_id.clone(),
            session_id: self.session_id.clone(),
            id,
        };
        match event {
            Event::ContractStartEvent => match self.get_location_id() {
                Ok(location_id) => Ok(start_value(&envelope, &location_id, &session.game_changers)),
                Err(error) => Err(error),
            },
            Event::IntroCutEndEvent => Ok(intro_cut_end_value(&envelope)),
            Event::KillEvent { repository_id } => Ok(kill_value(&envelope, repository_id)),
            Event::ExitGateEvent => match self.get_exit_id() {
                Ok(exit_id) => Ok(exit_gate_value(&envelope, &exit_id)),
                Err(error) => Err(error),
            },
            Event::AllBodiesHiddenEvent => unreached(),
        }
    }

    /// The request that reports `events`, each under a fresh identifier,
    /// within the play session that the backend last opened.
    pub fn save_events(&self, events: &Vec<Event>, user_id: &String, bearer: &String) -> (request:
        Result<Request, PublishError>)
        requires
            all_reportable(events_of(events@)),
        ensures
            match request {
                Ok(request) => first_failure(self@.document, events_of(events@)) is None
                    && exists|ids: Seq<Seq<char>>|
                    are_event_ids(ids, events@.len()) && request@ == #[trigger] events_request(
                        self@.services(),
                        bearer@,
                        user_id@,
                        event_documents(self@, user_id@, events_of(events@), ids),
                    ),
                Err(error) => first_failure(self@.document, events_of(events@)) == Some(error),
            },
    {
        self.save_events_within(&self.get4play, events, user_id, bearer)
    }

    /// The request that reports the one `event` under a fresh identifier.
    pub fn save_event2(&self, event: Event, user_id: &String, bearer: &String) -> (request: Result<
        Request,
        PublishError,
    >)
        requires
            !(event is AllBodiesHiddenEvent),
        ensures
            match request {
                Ok(request) => event_failure(self@.document, event@) is None && exists|
                    ids: Seq<Seq<char>>,
                |
                    are_event_ids(ids, 1) && request@ == #[trigger] events_request(
                        self@.services(),
                        bearer@,
                        user_id@,
                        event_documents(self@, user_id@, seq![event@], ids),
                    ),
                Err(error) => event_failure(self@.document, event@) == Some(error),
            },
    {
        let ghost event_view = event@;
        let mut events: Vec<Event> = Vec::new();
        events.push(event);
        assert(events_of(events@) =~= seq![event_view]);
        assert(first_failure(self@.document, seq![event_view].drop_first()) is None);
        self.save_events(&events, user_id, bearer)
    }

    /// The request that reports `events` within the given play session.
    fn save_events_within(
        &self,
        session: &Get4PlayResponse,
        events: &Vec<Event>,
        user_id: &String,
        bearer: &String,
    ) -> (request: Result<Request, PublishError>)
        requires
            all_reportable(events_of(events@)),
        ensures
            match request {
                Ok(request) => first_failure(self@.document, events_of(events@)) is None
                    && exists|ids: Seq<Seq<char>>|
                    are_event_ids(ids, events@.len()) && request@ == #[trigger] events_request(
                        self@.services(),
                        bearer@,
                        user_id@,
                        event_documents(self@.within(session@), user_id@, events_of(events@), ids),
                    ),
                Err(error) => first_failure(self@.document, events_of(events@)) == Some(error),
            },
    {
        proof {
            use_type_invariant(self);
        }
        let ghost all = events_of(events@);
        let ghost contract = self@.within(session@);
        let ghost mut ids: Seq<Seq<char>> = Seq::empty();
        let mut documents: Vec<serde_json::Value> = Vec::new();
        let mut done: usize = 0;
        assert(all.skip(0) =~= all);
        while done < events.len()
            invariant
                done <= events.len(),
                all == events_of(events@),
                all_reportable(all),
                contract == self@.within(session@),
                documents@.len() == done,
                are_event_ids(ids, done as nat),
                first_failure(self@.document, all) == first_failure(
                    self@.document,
                    all.skip(done as int),
                ),
                forall|i: int|
                    0 <= i < done ==> json_of(#[trigger] documents@[i]) == event_document(
                        contract,
                        user_id@,
                        all[i],
                        ids[i],
                    ),
            decreases events.len() - done,
        {
            let id = fresh_event_id();
            proof {
                ids = ids.push(id@);
                assert(all.skip(done as int).drop_first() =~= all.skip(done + 1));
            }
            match self.event_json_within(session, &events[done], user_id, id) {
                Ok(document) => {
                    documents.push(document);
                },
                Err(error) => {
                    return Err(error);
                },
            }
            done += 1;
        }
        let mut body = value_object();
        value_set_member(&mut body, "userId", value_string(user_id.clone()));
        let values = value_array(documents);
        assert(json_items(documents@) =~= event_documents(contract, user_id@, all, ids));
        value_set_member(&mut body, "values", values);
        let request = Request::post(
            self.services.saveevents2,
            bearer,
            Vec::new(),
            value_to_string(&body),
        );
        assert(request@.headers =~= Seq::empty());
        assert(request@ == events_request(
            self@.services(),
            bearer@,
            user_id@,
            event_documents(contract, user_id@, all, ids),
        ));
        Ok(request)
    }

    /// The request that asks the backend for an empty contract record.
    pub fn create(&self, bearer: &String) -> (request: Request)
        ensures
            request@ == page_request(self@.backend, bearer@),
    {
        proof {
            use_type_invariant(self);
        }
        let mut headers: Vec<Header> = Vec::new();
        headers.push(
            Header { name: "Version".to_owned(), value: self.backend.version().to_owned() },
        );
        let request = Request::get(self.services.contractcreatepage, bearer, headers);
        assert(request@.headers =~= seq![
            HeaderView { name: "Version"@, value: self@.backend.spec_version()@ },
        ]);
        request
    }

    /// The request that fills in the contract record described by `page`,
    /// the backend's contract creation page.
    pub fn create_from_params(&self, page: &serde_json::Value, bearer: &String) -> (request: Result<
        Request,
        PublishError,
    >)
        ensures
            match request {
                Ok(request) => page_ids(json_of(*page)) is Some && creation_body(
                    self@.document,
                    page_ids(json_of(*page))->0,
                ) is Some && request@ == finalize_request(
                    self@.services(),
                    bearer@,
                    creation_body(self@.document, page_ids(json_of(*page))->0)->0,
                ),
                Err(error) => match page_ids(json_of(*page)) {
                    None => error == PublishError::InvalidContractPage,
                    Some(ids) => error == PublishError::InvalidCreationParams && creation_body(
                        self@.document,
                        ids,
                    ) is None,
                },
            },
    {
        proof {
            use_type_invariant(self);
        }
        let ids = match read_page_ids(page) {
            Ok(ids) => ids,
            Err(error) => {
                return Err(error);
            },
        };
        let body = match creation_value(&self.contract_json, &ids) {
            Ok(body) => body,
            Err(error) => {
                return Err(error);
            },
        };
        let mut headers: Vec<Header> = Vec::new();
        headers.push(
            Header {
                name: "Content-Type".to_owned(),
                value: "application/json; charset=utf-8".to_owned(),
            },
        );
        let request = Request::post(
            self.services.createfromparams,
            bearer,
            headers,
            value_to_string(&body),
        );
        assert(request@.headers =~= seq![
            HeaderView { name: "Content-Type"@, value: "application/json; charset=utf-8"@ },
        ]);
        Ok(request)
    }

    /// The playthrough that is reported for the contract.
    pub fn planned_events(&self) -> (events: Result<Vec<Event>, PublishError>)
        ensures
            match events {
                Ok(events) => target_ids(self@.document) is Some && events_of(events@)
                    == event_plan(target_ids(self@.document)->0),
                Err(error) => error == PublishError::InvalidTargets && target_ids(self@.document)
                    is None,
            },
    {
        match read_target_ids(&self.contract_json) {
            Ok(ids) => Ok(plan_events(ids)),
            Err(error) => Err(error),
        }
    }

    /// One step of publishing the contract for `user_id`, authorised by
    /// `bearer`.
    ///
    /// `answer` is `None` to begin an attempt, and afterwards the body of
    /// the backend's answer to the request that the step before handed out.
    /// The step says what to send next, or that the contract is published.
    /// A failure ends the attempt and leaves the contract as it was.
    ///
    /// An attempt that begins draws a session token of its own and forgets
    /// the session of the attempt before. Which token it draws is not
    /// known; it has the shape of one, and it stays with the attempt.
    pub fn publish_contract(
        &mut self,
        user_id: &String,
        bearer: &String,
        answer: Option<&str>,
    ) -> (step: Result<Step, PublishError>)
        ensures
            match step {
                Ok(step) => {
                    &&& publish_failure(old(self)@, answer_text(answer)) is None
                    &&& final(self)@ == publish_next(
                        old(self)@,
                        answer_text(answer),
                        final(self)@.session_id,
                    )
                    &&& is_session_token(final(self)@.session_id)
                    &&& exists|ids: Seq<Seq<char>>|
                        are_event_ids(ids, reported_events(old(self)@, answer_text(answer)))
                            && step@ == #[trigger] publish_action(
                            old(self)@,
                            user_id@,
                            bearer@,
                            answer_text(answer),
                            ids,
                        )
                },
                Err(error) => {
                    &&& publish_failure(old(self)@, answer_text(answer)) == Some(error)
                    &&& *final(self) == *old(self)
                },
            },
    {
        proof {
            use_type_invariant(&*self);
        }
        let ghost before = self@;
        let ghost none: Seq<Seq<char>> = Seq::empty();
        let answer = match answer {
            Some(answer) => answer,
            None => {
                let request = match self.get_for_play2(bearer) {
                    Ok(request) => request,
                    Err(error) => {
                        return Err(error);
                    },
                };
                self.session_id = get_random_session_id();
                self.get4play = Get4PlayResponse::new();
                self.stage = Stage::Init;
                let step = Step::Send(request);
                assert(step@ == publish_action(before, user_id@, bearer@, None, none));
                return Ok(step);
            },
        };
        match self.stage {
            Stage::Init => self.acquire_session(user_id, bearer, answer),
            Stage::SessionAcquired => {
                let request = self.create(bearer);
                self.stage = Stage::EventsEmitted;
                let step = Step::Send(request);
                assert(step@ == publish_action(before, user_id@, bearer@, Some(answer@), none));
                Ok(step)
            },
            Stage::EventsEmitted => {
                let page = match read_json(answer) {
                    Ok(page) => page,
                    Err(error) => {
                        return Err(error);
                    },
                };
                let request = match self.create_from_params(&page, bearer) {
                    Ok(request) => request,
                    Err(error) => {
                        return Err(error);
                    },
                };
                self.stage = Stage::ShellCreated;
                let step = Step::Send(request);
                assert(step@ == publish_action(before, user_id@, bearer@, Some(answer@), none));
                Ok(step)
            },
            Stage::ShellCreated => {
                self.stage = Stage::Finalized;
                let step = Step::Done;
                assert(step@ == publish_action(before, user_id@, bearer@, Some(answer@), none));
                Ok(step)
            },
            Stage::Finalized => {
                let step = Step::Done;
                assert(step@ == publish_action(before, user_id@, bearer@, Some(answer@), none));
                Ok(step)
            },
        }
    }

    /// The step after the answer to the session request.
    fn acquire_session(&mut self, user_id: &String, bearer: &String, answer: &str) -> (step: Result<
        Step,
        PublishError,
    >)
        requires
            old(self)@.stage == Stage::Init,
        ensures
            match step {
                Ok(step) => {
                    &&& publish_failure(old(self)@, Some(answer@)) is None
                    &&& final(self)@ == publish_next(
                        old(self)@,
                        Some(answer@),
                        final(self)@.session_id,
                    )
                    &&& is_session_token(final(self)@.session_id)
                    &&& exists|ids: Seq<Seq<char>>|
                        are_event_ids(ids, reported_events(old(self)@, Some(answer@))) && step@
                            == #[trigger] publish_action(
                            old(self)@,
                            user_id@,
                            bearer@,
                            Some(answer@),
                            ids,
                        )
                },
                Err(error) => {
                    &&& publish_failure(old(self)@, Some(answer@)) == Some(error)
                    &&& *final(self) == *old(self)
                },
            },
    {
        proof {
            use_type_invariant(&*self);
        }
        let ghost before = self@;
        let answer_value = match read_json(answer) {
            Ok(value) => value,
            Err(error) => {
                return Err(error);
            },
        };
        let session = match Get4PlayResponse::from_value(&answer_value) {
            Ok(session) => session,
            Err(error) => {
                return Err(error);
            },
        };
        let events = match self.planned_events() {
            Ok(events) => events,
            Err(error) => {
                return Err(error);
            },
        };
        proof {
            lemma_plan_reports_each_target(target_ids(before.document)->0);
        }
        let request = match self.save_events_within(&session, &events, user_id, bearer) {
            Ok(request) => request,
            Err(error) => {
                return Err(error);
            },
        };
        let ghost ids = choose|ids: Seq<Seq<char>>|
            are_event_ids(ids, events@.len()) && request@ == #[trigger] events_request(
                before.services(),
                bearer@,
                user_id@,
                event_documents(before.within(session@), user_id@, events_of(events@), ids),
            );
        self.get4play = session;
        self.stage = Stage::SessionAcquired;
        let step = Step::Send(request);
        assert(step@ == publish_action(before, user_id@, bearer@, Some(answer@), ids));
        Ok(step)
    }
}

} // verus!
