//! The two backend profiles: four endpoints and a version string each.

use vstd::prelude::*;
use crate::PublishTypes;

verus! {

/// The endpoints of one backend generation.
pub struct Services {
    /// Where a play session is acquired.
    pub getforplay2: &'static str,
    /// Where events are reported.
    pub saveevents2: &'static str,
    /// Where an empty contract record is handed out.
    pub contractcreatepage: &'static str,
    /// Where a contract record is filled in.
    pub createfromparams: &'static str,
}

impl Services {
    /// The endpoints of the second generation, as a specification.
    pub open spec fn spec_hitman2() -> Services {
        Services {
            getforplay2: "https://pc2-service.hitman.io/authentication/api/userchannel/ContractsService/GetForPlay2",
            saveevents2: "https://pc2-service.hitman.io/authentication/api/userchannel/EventsService/SaveEvents2",
            contractcreatepage: "https://pc2-service.hitman.io/profiles/page/contractcreation/create",
            createfromparams: "https://pc2-service.hitman.io/authentication/api/userchannel/ContractsService/CreateFromParams",
        }
    }

    /// The endpoints of the third generation, as a specification.
    pub open spec fn spec_hitman3() -> Services {
        Services {
            getforplay2: "https://hm3-service.hitman.io/authentication/api/userchannel/ContractsService/GetForPlay2",
            saveevents2: "https://hm3-service.hitman.io/authentication/api/userchannel/EventsService/SaveEvents2",
            contractcreatepage: "https://hm3-service.hitman.io/profiles/page/contractcreation/create",
            createfromparams: "https://hm3-service.hitman.io/authentication/api/userchannel/ContractsService/CreateFromParams",
        }
    }

    /// The endpoints of a backend, as a specification.
    pub open spec fn spec_of(backend: PublishTypes) -> Services {
        match backend {
            PublishTypes::HITMAN2 => Self::spec_hitman2(),
            PublishTypes::HITMAN3 => Self::spec_hitman3(),
        }
    }

    /// The endpoints of the second generation.
    #[verifier::when_used_as_spec(spec_hitman2)]
    pub fn hitman2() -> (services: Services)
        ensures
            services == Self::spec_hitman2(),
    {
        Services {
            getforplay2: "https://pc2-service.hitman.io/authentication/api/userchannel/ContractsService/GetForPlay2",
            saveevents2: "https://pc2-service.hitman.io/authentication/api/userchannel/EventsService/SaveEvents2",
            contractcreatepage: "https://pc2-service.hitman.io/profiles/page/contractcreation/create",
            createfromparams: "https://pc2-service.hitman.io/authentication/api/userchannel/ContractsService/CreateFromParams",
        }
    }

    /// The endpoints of the third generation.
    #[verifier::when_used_as_spec(spec_hitman3)]
    pub fn hitman3() -> (services: Services)
        ensures
            services == Self::spec_hitman3(),
    {
        Services {
            getforplay2: "https://hm3-service.hitman.io/authentication/api/userchannel/ContractsService/GetForPlay2",
            saveevents2: "https://hm3-service.hitman.io/authentication/api/userchannel/EventsService/SaveEvents2",
            contractcreatepage: "https://hm3-service.hitman.io/profiles/page/contractcreation/create",
            createfromparams: "https://hm3-service.hitman.io/authentication/api/userchannel/ContractsService/CreateFromParams",
        }
    }

    /// The endpoints of a backend.
    #[verifier::when_used_as_spec(spec_of)]
    pub fn of(backend: PublishTypes) -> (services: Services)
        ensures
            services == Self::spec_of(backend),
    {
        match backend {
            PublishTypes::HITMAN2 => Self::hitman2(),
            PublishTypes::HITMAN3 => Self::hitman3(),
        }
    }
}

impl PublishTypes {
    /// The client version announced to a backend, as a specification.
    pub open spec fn spec_version(self) -> &'static str {
        match self {
            PublishTypes::HITMAN2 => "7.17.0",
            PublishTypes::HITMAN3 => "8.7.0",
        }
    }

    /// The client version announced to a backend.
    #[verifier::when_used_as_spec(spec_version)]
    pub fn version(self) -> (version: &'static str)
        ensures
            version == self.spec_version(),
    {
        match self {
            PublishTypes::HITMAN2 => "7.17.0",
            PublishTypes::HITMAN3 => "8.7.0",
        }
    }
}

} // verus!
