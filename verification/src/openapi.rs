use vstd::prelude::*;

verus! {

/// The link to the next page of a paginated result.
#[derive(Debug, Clone, PartialEq, Eq)]
pub struct PaginationCursor {
    pub next: Option<String>,
}

/// One subscription of an MQTT client.
#[derive(Debug, Clone, PartialEq, Eq)]
pub struct ClientSubscription {
    pub topic_filter: String,
    pub qos: String,
    pub no_local: Option<bool>,
    pub retain_as_published: Option<bool>,
    pub retain_handling: Option<String>,
    pub subscription_identifier: Option<Option<i32>>,
}

/// A page of the subscriptions of an MQTT client.
#[derive(Debug, Clone, PartialEq, Eq)]
pub struct ClientSubscriptionList {
    pub _links: Option<Option<Box<PaginationCursor>>>,
    pub items: Option<Vec<ClientSubscription>>,
}

impl ClientSubscriptionList {
    /// A list with neither items nor a link to a next page.
    pub fn new() -> (l: ClientSubscriptionList)
        ensures
            l._links is None,
            l.items is None,
    {
        ClientSubscriptionList { _links: None, items: None }
    }
}

/// Parameters of the request that downloads a backup file.
#[derive(Debug, Clone)]
pub struct DownloadBackupFileParams {
    /// The id of the backup.
    pub backup_id: String,
}

/// Parameters of the request that fetches one backup.
#[derive(Debug, Clone)]
pub struct GetBackupParams {
    /// The id of the backup.
    pub backup_id: String,
}

/// Parameters of the request that restores a backup.
#[derive(Debug, Clone)]
pub struct RestoreBackupParams {
    /// The id of the backup.
    pub backup_id: String,
}

/// Parameters of the request that fetches the stored Data Hub state of a client.
#[derive(Debug, Clone)]
pub struct GetClientStateParams {
    /// The client identifier.
    pub client_id: String,
}

/// Parameters of the request that disconnects a client.
#[derive(Debug, Clone)]
pub struct DisconnectClientParams {
    /// The MQTT client identifier.
    pub client_id: String,
    /// Whether to prevent the will message.
    pub prevent_will_message: Option<bool>,
}

/// Parameters of the request that lists the MQTT clients, one page at a time.
#[derive(Debug, Clone)]
pub struct GetAllMqttClientsParams {
    /// The page size, between 50 and 2500; 500 by default.
    pub limit: Option<i32>,
    /// The cursor of the previous page; none for the first page.
    pub cursor: Option<String>,
}

/// Parameters of the request that fetches the connection state of a client.
#[derive(Debug, Clone)]
pub struct GetMqttClientConnectionStateParams {
    /// The MQTT client identifier.
    pub client_id: String,
}

/// Parameters of the request that fetches the details of a client.
#[derive(Debug, Clone)]
pub struct GetMqttClientDetailsParams {
    /// The MQTT client identifier.
    pub client_id: String,
}

/// Parameters of the request that lists the subscriptions of a client.
#[derive(Debug, Clone)]
pub struct GetSubscriptionsForMqttClientParams {
    /// The MQTT client identifier.
    pub client_id: String,
}

/// Parameters of the request that invalidates the session of a client.
#[derive(Debug, Clone)]
pub struct InvalidateClientSessionParams {
    /// The MQTT client identifier.
    pub client_id: String,
    /// Whether to prevent the will message.
    pub prevent_will_message: Option<bool>,
}

} // verus!
