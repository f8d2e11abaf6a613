use vstd::prelude::*;

verus! {

/// An integration record as it travels to the backend store. On a create
/// request `body` holds the ciphertext of the caller's payload.
pub struct OriginIntegration {
    pub origin: String,
    pub integration: String,
    pub name: String,
    pub body: String,
}

/// Asks the backend for the names stored under an origin and integration.
pub struct OriginIntegrationGetNames {
    pub origin: String,
    pub integration: String,
}

/// The backend's answer to `OriginIntegrationGetNames`.
pub struct OriginIntegrationNames {
    pub names: Vec<String>,
}

impl View for OriginIntegrationNames {
    type V = Seq<Seq<char>>;

    open spec fn view(&self) -> Seq<Seq<char>> {
        self.names@.map_values(|s: String| s@)
    }
}

/// Asks the backend to store a new integration.
pub struct OriginIntegrationCreate {
    pub integration: OriginIntegration,
}

/// Asks the backend to remove the integration with the given key.
pub struct OriginIntegrationDelete {
    pub integration: OriginIntegration,
}

/// A request to the backend store.
pub enum BackendRequest {
    GetNames(OriginIntegrationGetNames),
    Create(OriginIntegrationCreate),
    Delete(OriginIntegrationDelete),
}

/// A backend request as values: what crosses to the store.
pub enum BackendRequestView {
    GetNames { origin: Seq<char>, integration: Seq<char> },
    Create { origin: Seq<char>, integration: Seq<char>, name: Seq<char>, body: Seq<char> },
    Delete { origin: Seq<char>, integration: Seq<char>, name: Seq<char>, body: Seq<char> },
}

impl View for BackendRequest {
    type V = BackendRequestView;

    open spec fn view(&self) -> BackendRequestView {
        match self {
            BackendRequest::GetNames(m) => BackendRequestView::GetNames {
                origin: m.origin@,
                integration: m.integration@,
            },
            BackendRequest::Create(m) => BackendRequestView::Create {
                origin: m.integration.origin@,
                integration: m.integration.integration@,
                name: m.integration.name@,
                body: m.integration.body@,
            },
            BackendRequest::Delete(m) => BackendRequestView::Delete {
                origin: m.integration.origin@,
                integration: m.integration.integration@,
                name: m.integration.name@,
                body: m.integration.body@,
            },
        }
    }
}

/// The error code that a failed backend round trip carries.
#[derive(Clone, Copy, Debug, PartialEq, Eq, Structural)]
pub enum ErrCode {
    Bug,
    Timeout,
    RemoteRejected,
    BadRemoteReply,
    EntityNotFound,
    NoShard,
    AccessDenied,
    SessionExpired,
    EntityConflict,
    DataStore,
}

/// A failed backend round trip.
pub struct NetError {
    pub code: ErrCode,
    pub msg: String,
}

/// A backend round trip that succeeded with nothing to return.
#[derive(Clone, Copy, Debug, PartialEq, Eq, Structural)]
pub struct NetOk;

} // verus!
