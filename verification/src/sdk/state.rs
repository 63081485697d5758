//! The life of the SDK: initialized, connecting, connected, disconnected, shut down.

use vstd::prelude::*;
use crate::error::{ErrorModel, PrivchatSDKError};
use crate::events::{SDKEvent, SyncPhase, SyncStatus};
use crate::sdk::config;
use crate::sdk::config::{PrivchatConfig, TransportProtocol, validate_config};

pub use crate::events::ConnectionState;

verus! {

/// Seconds before the first attempt to connect again after the connection broke.
pub const AUTO_RECONNECT_FIRST_DELAY_SECS: u64 = 3;

/// What the SDK knows of its connection. Times are milliseconds of a clock that never goes back.
#[derive(Debug, Clone, Copy, PartialEq, Eq, Structural)]
pub struct SDKState {
    pub connection_state: ConnectionState,
    pub current_protocol: Option<TransportProtocol>,
    pub current_user_id: Option<u64>,
    pub last_connected: Option<u64>,
    pub last_disconnected: Option<u64>,
}

/// The state before the first connection.
pub open spec fn initial_state() -> SDKState {
    SDKState {
        connection_state: ConnectionState::Disconnected,
        current_protocol: None,
        current_user_id: None,
        last_connected: None,
        last_disconnected: None,
    }
}

impl Default for SDKState {
    fn default() -> (r: Self)
        ensures
            r == initial_state(),
    {
        SDKState {
            connection_state: ConnectionState::Disconnected,
            current_protocol: None,
            current_user_id: None,
            last_connected: None,
            last_disconnected: None,
        }
    }
}

/// The SDK.
#[derive(Debug)]
pub struct PrivchatSDK {
    pub config: PrivchatConfig,
    pub state: SDKState,
    pub initialized: bool,
    pub shutting_down: bool,
    /// Whether there is a client that talks to the server.
    pub has_client: bool,
    /// Whether a supervised sync runs.
    pub supervised_sync_running: bool,
}

/// How far an attempt to connect has come.
#[derive(Debug)]
pub struct ConnectAttempt {
    /// The server to try next.
    pub next: usize,
    /// Why the server before it could not be reached.
    pub last_error: Option<PrivchatSDKError>,
}

/// What follows the attempt to reach one server.
#[derive(Debug)]
pub enum ConnectStep {
    /// Try the server `attempt.next`.
    TryNext { attempt: ConnectAttempt },
    /// The server with this index was reached.
    Connected { endpoint: usize, event: SDKEvent },
    /// No server could be reached.
    Failed { error: PrivchatSDKError, event: SDKEvent },
}

/// How an attempt to connect goes on, apart from how errors are held.
pub enum ConnectStepModel {
    TryNext { next: nat, last_error: Option<ErrorModel> },
    Connected { endpoint: nat },
    Failed { error: ErrorModel },
}

/// What an optional error says.
pub open spec fn error_view(e: Option<PrivchatSDKError>) -> Option<ErrorModel> {
    match e {
        Some(e) => Some(e@),
        None => None,
    }
}

/// The error where no server could be tried.
pub open spec fn nothing_to_try() -> ErrorModel {
    ErrorModel::Transport("没有可用的传输协议"@)
}

/// What is tried at the start: the first server, if there is one.
pub open spec fn first_connect(servers: nat) -> ConnectStepModel {
    if servers > 0 {
        ConnectStepModel::TryNext { next: 0, last_error: None }
    } else {
        ConnectStepModel::Failed { error: nothing_to_try() }
    }
}

/// What follows the attempt to reach the server `tried` of `servers` servers.
pub open spec fn next_connect(servers: nat, tried: nat, failure: Option<ErrorModel>) -> ConnectStepModel {
    match failure {
        None => ConnectStepModel::Connected { endpoint: tried },
        Some(e) => if tried + 1 < servers {
            ConnectStepModel::TryNext { next: tried + 1, last_error: Some(e) }
        } else {
            ConnectStepModel::Failed { error: e }
        },
    }
}

/// Whether an event reports the change from connecting to a state.
pub open spec fn reports_change(event: SDKEvent, from: ConnectionState, to: ConnectionState) -> bool {
    event == (SDKEvent::ConnectionStateChanged { old_state: from, new_state: to })
}

impl ConnectStep {
    /// How the attempt goes on.
    pub open spec fn model(self) -> ConnectStepModel {
        match self {
            ConnectStep::TryNext { attempt } => ConnectStepModel::TryNext {
                next: attempt.next as nat,
                last_error: error_view(attempt.last_error),
            },
            ConnectStep::Connected { endpoint, event } => ConnectStepModel::Connected {
                endpoint: endpoint as nat,
            },
            ConnectStep::Failed { error, event } => ConnectStepModel::Failed { error: error@ },
        }
    }

    /// Whether the step reports the change of the connection state that it stands for.
    pub open spec fn reports(self) -> bool {
        match self {
            ConnectStep::TryNext { .. } => true,
            ConnectStep::Connected { endpoint, event } => reports_change(
                event,
                ConnectionState::Connecting,
                ConnectionState::Connected,
            ),
            ConnectStep::Failed { error, event } => reports_change(
                event,
                ConnectionState::Connecting,
                ConnectionState::Disconnected,
            ),
        }
    }
}

/// The state after a step of an attempt to connect.
pub open spec fn state_after_step(
    before: SDKState,
    step: ConnectStepModel,
    protocol: TransportProtocol,
    now: u64,
) -> SDKState {
    match step {
        ConnectStepModel::TryNext { .. } => before,
        ConnectStepModel::Connected { .. } => SDKState {
            connection_state: ConnectionState::Connected,
            last_connected: Some(now),
            current_protocol: Some(protocol),
            ..before
        },
        ConnectStepModel::Failed { .. } => SDKState {
            connection_state: ConnectionState::Disconnected,
            last_disconnected: Some(now),
            ..before
        },
    }
}

/// The error of an operation that needs an initialized SDK, if it has one.
pub open spec fn lifecycle_fault(sdk: PrivchatSDK) -> Option<ErrorModel> {
    if !sdk.initialized {
        Some(ErrorModel::NotInitialized("SDK 未初始化"@))
    } else if sdk.shutting_down {
        Some(ErrorModel::ShuttingDown("SDK 正在关闭"@))
    } else {
        None
    }
}

impl PrivchatSDK {
    /// Whether there is a connection: a client, or a state that says so.
    pub open spec fn connected(self) -> bool {
        self.has_client || self.state.connection_state == ConnectionState::Connected
    }

    /// Who uses the SDK over its connection, or why nobody can.
    pub open spec fn session(self) -> Result<u64, ErrorModel> {
        match lifecycle_fault(self) {
            Some(e) => Err(e),
            None => if !self.connected() {
                Err(ErrorModel::NotConnected)
            } else {
                match self.state.current_user_id {
                    Some(id) => Ok(id),
                    None => Err(ErrorModel::NotConnected),
                }
            },
        }
    }

    /// Starts the SDK, where its configuration can be used.
    pub fn initialize(config: PrivchatConfig) -> (r: Result<Self, PrivchatSDKError>)
        ensures
            match r {
                Ok(sdk) => config::config_fault(config) is None && sdk == (PrivchatSDK {
                    config,
                    state: initial_state(),
                    initialized: true,
                    shutting_down: false,
                    has_client: false,
                    supervised_sync_running: false,
                }),
                Err(e) => config::config_fault(config) matches Some(m) && e@ == ErrorModel::Config(m),
            },
    {
        match validate_config(&config) {
            Ok(_) => Ok(
                PrivchatSDK {
                    config,
                    state: SDKState::default(),
                    initialized: true,
                    shutting_down: false,
                    has_client: false,
                    supervised_sync_running: false,
                },
            ),
            Err(e) => Err(e),
        }
    }

    /// Whether the SDK is initialized.
    pub fn is_initialized(&self) -> (r: bool)
        ensures
            r == self.initialized,
    {
        self.initialized
    }

    /// Whether the SDK is shutting down.
    pub fn is_shutting_down(&self) -> (r: bool)
        ensures
            r == self.shutting_down,
    {
        self.shutting_down
    }

    /// Whether there is a connection.
    pub fn is_connected(&self) -> (r: bool)
        ensures
            r == self.connected(),
    {
        if self.has_client {
            return true;
        }
        self.state.connection_state == ConnectionState::Connected
    }

    /// The user who is logged in.
    pub fn user_id(&self) -> (r: Option<u64>)
        ensures
            r == self.state.current_user_id,
    {
        self.state.current_user_id
    }

    /// The configuration.
    pub fn config(&self) -> (r: &PrivchatConfig)
        ensures
            *r == self.config,
    {
        &self.config
    }

    /// Whether the SDK can be used: it is initialized and not shutting down.
    pub fn check_initialized(&self) -> (r: Result<(), PrivchatSDKError>)
        ensures
            match r {
                Ok(_) => lifecycle_fault(*self) is None,
                Err(e) => lifecycle_fault(*self) == Some(e@),
            },
    {
        if !self.initialized {
            return Err(PrivchatSDKError::NotInitialized("SDK 未初始化".to_owned()));
        }
        if self.shutting_down {
            return Err(PrivchatSDKError::ShuttingDown("SDK 正在关闭".to_owned()));
        }
        Ok(())
    }

    /// Whether there is a connection.
    pub fn check_connected(&self) -> (r: Result<(), PrivchatSDKError>)
        ensures
            match r {
                Ok(_) => self.connected(),
                Err(e) => !self.connected() && e@ == ErrorModel::NotConnected,
            },
    {
        if !self.is_connected() {
            return Err(PrivchatSDKError::NotConnected);
        }
        Ok(())
    }

    /// The user on whose behalf the server is called.
    pub fn require_session(&self) -> (r: Result<u64, PrivchatSDKError>)
        ensures
            match r {
                Ok(id) => self.session() == Ok::<_, ErrorModel>(id),
                Err(e) => self.session() == Err::<u64, _>(e@),
            },
    {
        match self.check_initialized() {
            Ok(_) => {},
            Err(e) => return Err(e),
        }
        match self.check_connected() {
            Ok(_) => {},
            Err(e) => return Err(e),
        }
        match self.state.current_user_id {
            Some(id) => Ok(id),
            None => Err(PrivchatSDKError::NotConnected),
        }
    }

    /// Begins to connect: the first server is to be tried, if there is one.
    pub fn connect(&mut self, now: u64) -> (r: Result<ConnectStep, PrivchatSDKError>)
        ensures
            match r {
                Ok(step) => {
                    &&& lifecycle_fault(*old(self)) is None
                    &&& step.model() == first_connect(old(self).config.server_config.endpoints@.len())
                    &&& step.reports()
                    &&& *final(self) == (PrivchatSDK {
                        state: if step is TryNext {
                            SDKState {
                                connection_state: ConnectionState::Connecting,
                                ..old(self).state
                            }
                        } else {
                            SDKState {
                                connection_state: ConnectionState::Disconnected,
                                last_disconnected: Some(now),
                                ..old(self).state
                            }
                        },
                        ..*old(self)
                    })
                },
                Err(e) => lifecycle_fault(*old(self)) == Some(e@) && *final(self) == *old(self),
            },
    {
        match self.check_initialized() {
            Ok(_) => {},
            Err(e) => return Err(e),
        }
        if self.config.server_config.endpoints.len() > 0 {
            self.state.connection_state = ConnectionState::Connecting;
            Ok(ConnectStep::TryNext { attempt: ConnectAttempt { next: 0, last_error: None } })
        } else {
            self.state.connection_state = ConnectionState::Disconnected;
            self.state.last_disconnected = Some(now);
            Ok(
                ConnectStep::Failed {
                    error: PrivchatSDKError::Transport("没有可用的传输协议".to_owned()),
                    event: SDKEvent::ConnectionStateChanged {
                        old_state: ConnectionState::Connecting,
                        new_state: ConnectionState::Disconnected,
                    },
                },
            )
        }
    }

    /// Goes on after the attempt to reach the server `attempt.next`: `failure` says why it could
    /// not be reached, or is absent where it was. A server that was reached has its client.
    pub fn try_connect_with_endpoint(
        &mut self,
        attempt: ConnectAttempt,
        failure: Option<PrivchatSDKError>,
        now: u64,
    ) -> (r: ConnectStep)
        requires
            attempt.next < old(self).config.server_config.endpoints@.len(),
        ensures
            r.model() == next_connect(
                old(self).config.server_config.endpoints@.len(),
                attempt.next as nat,
                error_view(failure),
            ),
            r.reports(),
            *final(self) == (PrivchatSDK {
                state: state_after_step(
                    old(self).state,
                    r.model(),
                    old(self).config.server_config.endpoints@[attempt.next as int].protocol,
                    now,
                ),
                has_client: old(self).has_client || failure is None,
                ..*old(self)
            }),
    {
        let tried: usize = attempt.next;
        let servers: usize = self.config.server_config.endpoints.len();
        match failure {
            None => {
                let protocol = self.config.server_config.endpoints[tried].protocol;
                self.has_client = true;
                self.state.connection_state = ConnectionState::Connected;
                self.state.last_connected = Some(now);
                self.state.current_protocol = Some(protocol);
                ConnectStep::Connected {
                    endpoint: tried,
                    event: SDKEvent::ConnectionStateChanged {
                        old_state: ConnectionState::Connecting,
                        new_state: ConnectionState::Connected,
                    },
                }
            },
            Some(e) => if tried + 1 < servers {
                ConnectStep::TryNext {
                    attempt: ConnectAttempt { next: tried + 1, last_error: Some(e) },
                }
            } else {
                self.state.connection_state = ConnectionState::Disconnected;
                self.state.last_disconnected = Some(now);
                ConnectStep::Failed {
                    error: e,
                    event: SDKEvent::ConnectionStateChanged {
                        old_state: ConnectionState::Connecting,
                        new_state: ConnectionState::Disconnected,
                    },
                }
            },
        }
    }

    /// Makes a user the current one, before the server is asked to accept them.
    pub fn authenticate(&mut self, user_id: u64) -> (r: Result<(), PrivchatSDKError>)
        ensures
            match r {
                Ok(_) => lifecycle_fault(*old(self)) is None && *final(self) == (PrivchatSDK {
                    state: SDKState { current_user_id: Some(user_id), ..old(self).state },
                    ..*old(self)
                }),
                Err(e) => lifecycle_fault(*old(self)) == Some(e@) && *final(self) == *old(self),
            },
    {
        match self.check_initialized() {
            Ok(_) => {},
            Err(e) => return Err(e),
        }
        self.state.current_user_id = Some(user_id);
        Ok(())
    }

    /// Drops the connection and forgets the user. While the SDK shuts down this always works.
    pub fn disconnect(&mut self, now: u64) -> (r: Result<SDKEvent, PrivchatSDKError>)
        ensures
            match r {
                Ok(event) => {
                    &&& old(self).shutting_down || lifecycle_fault(*old(self)) is None
                    &&& reports_change(
                        event,
                        ConnectionState::Connected,
                        ConnectionState::Disconnected,
                    )
                    &&& *final(self) == disconnected(*old(self), now)
                },
                Err(e) => !old(self).shutting_down && lifecycle_fault(*old(self)) == Some(e@)
                    && *final(self) == *old(self),
            },
    {
        if !self.shutting_down {
            match self.check_initialized() {
                Ok(_) => {},
                Err(e) => return Err(e),
            }
        }
        self.state.connection_state = ConnectionState::Disconnected;
        self.state.last_disconnected = Some(now);
        self.state.current_protocol = None;
        self.state.current_user_id = None;
        self.has_client = false;
        Ok(
            SDKEvent::ConnectionStateChanged {
                old_state: ConnectionState::Connected,
                new_state: ConnectionState::Disconnected,
            },
        )
    }

    /// Marks the SDK as connecting again after its connection broke.
    pub fn begin_reconnect(&mut self) -> (r: SDKEvent)
        ensures
            reports_change(r, ConnectionState::Disconnected, ConnectionState::Reconnecting),
            *final(self) == (PrivchatSDK {
                state: SDKState {
                    connection_state: ConnectionState::Reconnecting,
                    ..old(self).state
                },
                ..*old(self)
            }),
    {
        self.state.connection_state = ConnectionState::Reconnecting;
        SDKEvent::ConnectionStateChanged {
            old_state: ConnectionState::Disconnected,
            new_state: ConnectionState::Reconnecting,
        }
    }

    /// Whether to try to connect again: until it succeeds or the SDK shuts down.
    pub fn keep_reconnecting(&self, succeeded: bool) -> (r: bool)
        ensures
            r == (!succeeded && !self.shutting_down),
    {
        !succeeded && !self.shutting_down
    }

    /// Logs the user out: drops the connection and stops the supervised sync.
    pub fn logout(&mut self, now: u64) -> (r: Result<Option<SDKEvent>, PrivchatSDKError>)
        ensures
            match r {
                Ok(event) => {
                    &&& event is Some <==> old(self).connected()
                    &&& event matches Some(e) ==> reports_change(
                        e,
                        ConnectionState::Connected,
                        ConnectionState::Disconnected,
                    )
                    &&& *final(self) == logged_out(*old(self), now)
                    &&& old(self).connected() ==> old(self).shutting_down || lifecycle_fault(
                        *old(self),
                    ) is None
                    &&& old(self).supervised_sync_running ==> lifecycle_fault(*old(self)) is None
                },
                Err(e) => {
                    &&& lifecycle_fault(*old(self)) == Some(e@)
                    &&& if old(self).connected() && !old(self).shutting_down {
                        *final(self) == *old(self)
                    } else {
                        old(self).supervised_sync_running && *final(self) == (PrivchatSDK {
                            has_client: false,
                            ..if old(self).connected() {
                                disconnected(*old(self), now)
                            } else {
                                *old(self)
                            }
                        })
                    }
                },
            },
    {
        let mut event: Option<SDKEvent> = None;
        if self.is_connected() {
            match self.disconnect(now) {
                Ok(e) => {
                    event = Some(e);
                },
                Err(e) => return Err(e),
            }
        }
        self.has_client = false;
        if self.supervised_sync_running {
            match self.stop_supervised_sync() {
                Ok(_) => {},
                Err(e) => return Err(e),
            }
        }
        self.state.current_user_id = None;
        Ok(event)
    }

    /// Shuts the SDK down for good.
    pub fn shutdown(&mut self, now: u64) -> (r: SDKEvent)
        ensures
            reports_change(r, ConnectionState::Connected, ConnectionState::Disconnected),
            *final(self) == (PrivchatSDK {
                initialized: false,
                shutting_down: true,
                ..disconnected(*old(self), now)
            }),
    {
        self.shutting_down = true;
        self.state.connection_state = ConnectionState::Disconnected;
        self.state.last_disconnected = Some(now);
        self.state.current_protocol = None;
        self.state.current_user_id = None;
        self.has_client = false;
        self.initialized = false;
        SDKEvent::ConnectionStateChanged {
            old_state: ConnectionState::Connected,
            new_state: ConnectionState::Disconnected,
        }
    }

    /// Starts the supervised sync, of which there is at most one.
    pub fn start_supervised_sync(&mut self) -> (r: Result<SyncStatus, PrivchatSDKError>)
        ensures
            match r {
                Ok(status) => {
                    &&& supervised_sync_fault(*old(self)) is None
                    &&& *final(self) == (PrivchatSDK { supervised_sync_running: true, ..*old(self) })
                    &&& status.phase == SyncPhase::Running
                    &&& status.message matches Some(m) && m@ == "开始同步"@
                },
                Err(e) => supervised_sync_fault(*old(self)) == Some(e@) && *final(self) == *old(self),
            },
    {
        match self.check_initialized() {
            Ok(_) => {},
            Err(e) => return Err(e),
        }
        match self.check_connected() {
            Ok(_) => {},
            Err(e) => return Err(e),
        }
        if self.supervised_sync_running {
            return Err(PrivchatSDKError::InvalidInput("受监督的同步已经在运行".to_owned()));
        }
        self.supervised_sync_running = true;
        Ok(SyncStatus { phase: SyncPhase::Running, message: Some("开始同步".to_owned()) })
    }

    /// One round of the supervised sync: what the observer is told, and whether another round
    /// follows after a pause.
    pub fn supervised_sync_round(&self, has_engine: bool) -> (r: (Option<SyncStatus>, bool))
        ensures
            r.1 == (self.supervised_sync_running && has_engine),
            match r.0 {
                Some(s) => self.supervised_sync_running && (if has_engine {
                    s.phase == SyncPhase::Running && (s.message matches Some(m) && m@ == "同步中..."@)
                } else {
                    s.phase == SyncPhase::Error && (s.message matches Some(m) && m@
                        == "同步引擎未初始化"@)
                }),
                None => !self.supervised_sync_running,
            },
    {
        if !self.supervised_sync_running {
            return (None, false);
        }
        if has_engine {
            (
                Some(
                    SyncStatus { phase: SyncPhase::Running, message: Some("同步中...".to_owned()) },
                ),
                true,
            )
        } else {
            (
                Some(
                    SyncStatus {
                        phase: SyncPhase::Error,
                        message: Some("同步引擎未初始化".to_owned()),
                    },
                ),
                false,
            )
        }
    }

    /// What the observer of the supervised sync is told at its end.
    pub fn supervised_sync_ended(&self) -> (r: SyncStatus)
        ensures
            r.phase == SyncPhase::Idle,
            r.message matches Some(m) && m@ == "同步已停止"@,
    {
        SyncStatus { phase: SyncPhase::Idle, message: Some("同步已停止".to_owned()) }
    }

    /// Stops the supervised sync.
    pub fn stop_supervised_sync(&mut self) -> (r: Result<(), PrivchatSDKError>)
        ensures
            match r {
                Ok(_) => lifecycle_fault(*old(self)) is None && *final(self) == (PrivchatSDK {
                    supervised_sync_running: false,
                    ..*old(self)
                }),
                Err(e) => lifecycle_fault(*old(self)) == Some(e@) && *final(self) == *old(self),
            },
    {
        match self.check_initialized() {
            Ok(_) => {},
            Err(e) => return Err(e),
        }
        self.supervised_sync_running = false;
        Ok(())
    }
}

/// The SDK without its connection.
pub open spec fn disconnected(sdk: PrivchatSDK, now: u64) -> PrivchatSDK {
    PrivchatSDK {
        state: SDKState {
            connection_state: ConnectionState::Disconnected,
            last_disconnected: Some(now),
            current_protocol: None,
            current_user_id: None,
            ..sdk.state
        },
        has_client: false,
        ..sdk
    }
}

/// The SDK without its user.
pub open spec fn logged_out(sdk: PrivchatSDK, now: u64) -> PrivchatSDK {
    let base = if sdk.connected() {
        disconnected(sdk, now)
    } else {
        sdk
    };
    PrivchatSDK {
        state: SDKState { current_user_id: None, ..base.state },
        has_client: false,
        supervised_sync_running: false,
        ..base
    }
}

/// Why the supervised sync cannot be started, if it cannot.
pub open spec fn supervised_sync_fault(sdk: PrivchatSDK) -> Option<ErrorModel> {
    match lifecycle_fault(sdk) {
        Some(e) => Some(e),
        None => if !sdk.connected() {
            Some(ErrorModel::NotConnected)
        } else if sdk.supervised_sync_running {
            Some(ErrorModel::InvalidInput("受监督的同步已经在运行"@))
        } else {
            None
        },
    }
}

/// How an attempt to connect ends, from the server `tried` on: `failures` says for each server why
/// it cannot be reached, or nothing where it can.
pub open spec fn connect_end(failures: Seq<Option<ErrorModel>>, tried: nat) -> ConnectStepModel
    decreases failures.len() - tried,
{
    let step = next_connect(failures.len(), tried, failures[tried as int]);
    if tried >= failures.len() {
        step
    } else {
        match step {
            ConnectStepModel::TryNext { next, last_error } => connect_end(failures, tried + 1),
            other => other,
        }
    }
}

/// The connection goes to the first server that can be reached, in the order of preference; where
/// none can, the error is that of the last one.
pub proof fn law_first_reachable_server_is_taken(failures: Seq<Option<ErrorModel>>, tried: nat)
    requires
        tried < failures.len(),
        forall|i: int| 0 <= i < tried ==> (#[trigger] failures[i]) is Some,
    ensures
        match connect_end(failures, tried) {
            ConnectStepModel::Connected { endpoint } => endpoint < failures.len()
                && failures[endpoint as int] is None && forall|i: int|
                0 <= i < endpoint ==> (#[trigger] failures[i]) is Some,
            ConnectStepModel::Failed { error } => (forall|i: int|
                0 <= i < failures.len() ==> (#[trigger] failures[i]) is Some) && Some(error)
                == failures.last(),
            ConnectStepModel::TryNext { .. } => false,
        },
    decreases failures.len() - tried,
{
    if failures[tried as int] is Some && tried + 1 < failures.len() {
        law_first_reachable_server_is_taken(failures, tried + 1);
    }
}

/// After a disconnection nobody is logged in and nothing is connected.
pub proof fn law_disconnected_sdk_has_no_session(sdk: PrivchatSDK, now: u64)
    ensures
        !disconnected(sdk, now).connected(),
        disconnected(sdk, now).state.current_user_id is None,
        disconnected(sdk, now).session() is Err,
        !logged_out(sdk, now).connected(),
        logged_out(sdk, now).state.current_user_id is None,
{
}

/// An SDK that was shut down refuses every operation that needs an initialized one.
pub proof fn law_shut_down_sdk_refuses_everything(sdk: PrivchatSDK, now: u64)
    ensures
        ({
            let down = PrivchatSDK {
                initialized: false,
                shutting_down: true,
                ..disconnected(sdk, now)
            };
            &&& lifecycle_fault(down) == Some(ErrorModel::NotInitialized("SDK 未初始化"@))
            &&& down.session() is Err
            &&& supervised_sync_fault(down) is Some
        }),
{
}

/// A session needs all three: an SDK in use, a connection, and a user.
pub proof fn law_session_needs_user_and_connection(sdk: PrivchatSDK)
    ensures
        sdk.session() is Ok <==> sdk.initialized && !sdk.shutting_down && sdk.connected()
            && sdk.state.current_user_id is Some,
{
}

/// The servers are tried one after the other from the first on: after a failure the next, after the
/// last the failure itself, and after a success none. Without servers there is nothing to try.
pub proof fn law_servers_are_tried_in_order(servers: nat, tried: nat, e: ErrorModel)
    ensures
        servers > 0 ==> first_connect(servers) == (ConnectStepModel::TryNext {
            next: 0,
            last_error: None,
        }),
        first_connect(0) == (ConnectStepModel::Failed {
            error: ErrorModel::Transport("没有可用的传输协议"@),
        }),
        next_connect(servers, tried, None) == (ConnectStepModel::Connected { endpoint: tried }),
        tried + 1 < servers ==> next_connect(servers, tried, Some(e)) == (ConnectStepModel::TryNext {
            next: tried + 1,
            last_error: Some(e),
        }),
        tried + 1 >= servers ==> next_connect(servers, tried, Some(e)) == (ConnectStepModel::Failed {
            error: e,
        }),
{
}

/// A step towards a connection changes what it decides: a success makes the state connected by the
/// protocol since now, a failure disconnected since now, and another try nothing. The user is kept.
pub proof fn law_a_connection_step_changes_the_state(
    before: SDKState,
    step: ConnectStepModel,
    protocol: TransportProtocol,
    now: u64,
)
    ensures
        ({
            let after = state_after_step(before, step, protocol, now);
            &&& step is TryNext ==> after == before
            &&& step is Connected ==> after.connection_state == ConnectionState::Connected
                && after.current_protocol == Some(protocol) && after.last_connected == Some(now)
                && after.last_disconnected == before.last_disconnected
            &&& step is Failed ==> after.connection_state == ConnectionState::Disconnected
                && after.last_disconnected == Some(now) && after.last_connected == before.last_connected
                && after.current_protocol == before.current_protocol
            &&& after.current_user_id == before.current_user_id
        }),
{
}

/// The state begins disconnected, without a user, a protocol or times.
pub proof fn law_the_state_begins_disconnected()
    ensures
        initial_state().connection_state == ConnectionState::Disconnected,
        initial_state().current_user_id is None && initial_state().current_protocol is None,
        initial_state().last_connected is None && initial_state().last_disconnected is None,
{
}

/// Nothing works before the start, and nothing after the shutdown has begun; the first counts before
/// the second.
pub proof fn law_the_sdk_works_between_start_and_shutdown(sdk: PrivchatSDK)
    ensures
        lifecycle_fault(sdk) is None <==> sdk.initialized && !sdk.shutting_down,
        !sdk.initialized ==> lifecycle_fault(sdk) == Some(ErrorModel::NotInitialized("SDK 未初始化"@)),
        sdk.initialized && sdk.shutting_down ==> lifecycle_fault(sdk) == Some(
            ErrorModel::ShuttingDown("SDK 正在关闭"@),
        ),
        sdk.connected() <==> sdk.has_client || sdk.state.connection_state == ConnectionState::Connected,
        sdk.session() matches Err(e) ==> e == (if lifecycle_fault(sdk) is Some {
            lifecycle_fault(sdk)->0
        } else {
            ErrorModel::NotConnected
        }),
{
}

/// Disconnecting and logging out forget the user and the client; disconnecting also notes the time.
/// Logging out stops the supervised sync and notes the time just where there was a connection. Neither
/// changes whether the sdk runs.
pub proof fn law_logging_out_forgets_the_user(sdk: PrivchatSDK, now: u64)
    ensures
        ({
            let d = disconnected(sdk, now);
            &&& d.state.current_user_id is None && d.state.current_protocol is None && !d.has_client
            &&& d.state.connection_state == ConnectionState::Disconnected
            &&& d.state.last_disconnected == Some(now)
            &&& d.state.last_connected == sdk.state.last_connected
            &&& d.initialized == sdk.initialized && d.shutting_down == sdk.shutting_down
            &&& d.supervised_sync_running == sdk.supervised_sync_running
        }),
        ({
            let o = logged_out(sdk, now);
            &&& o.state.current_user_id is None && !o.has_client && !o.supervised_sync_running
            &&& o.state.connection_state != ConnectionState::Connected
            &&& sdk.connected() ==> o.state.last_disconnected == Some(now)
                && o.state.current_protocol is None && o.state.connection_state
                == ConnectionState::Disconnected
            &&& !sdk.connected() ==> o.state.last_disconnected == sdk.state.last_disconnected
                && o.state.current_protocol == sdk.state.current_protocol && o.state.connection_state
                == sdk.state.connection_state
            &&& o.initialized == sdk.initialized && o.shutting_down == sdk.shutting_down
            &&& !o.connected() && o.session() is Err
        }),
{
}

/// A supervised sync starts just where the sdk runs, is connected and has none yet.
pub proof fn law_one_supervised_sync_at_a_time(sdk: PrivchatSDK)
    ensures
        supervised_sync_fault(sdk) is None <==> sdk.initialized && !sdk.shutting_down && sdk.connected()
            && !sdk.supervised_sync_running,
        lifecycle_fault(sdk) is Some ==> supervised_sync_fault(sdk) == lifecycle_fault(sdk),
        lifecycle_fault(sdk) is None && !sdk.connected() ==> supervised_sync_fault(sdk) == Some(
            ErrorModel::NotConnected,
        ),
        lifecycle_fault(sdk) is None && sdk.connected() && sdk.supervised_sync_running
            ==> supervised_sync_fault(sdk) == Some(ErrorModel::InvalidInput("受监督的同步已经在运行"@)),
{
}

/// The end of the tries for a connection is reported: a success as connected, a failure as
/// disconnected, both after connecting.
pub proof fn law_the_end_of_connecting_is_reported(step: ConnectStep)
    requires
        step.reports(),
    ensures
        step matches ConnectStep::Connected { event, .. } ==> event == (SDKEvent::ConnectionStateChanged {
            old_state: ConnectionState::Connecting,
            new_state: ConnectionState::Connected,
        }),
        step matches ConnectStep::Failed { event, .. } ==> event == (SDKEvent::ConnectionStateChanged {
            old_state: ConnectionState::Connecting,
            new_state: ConnectionState::Disconnected,
        }),
        step matches ConnectStep::Connected { endpoint, .. } ==> step.model()
            == (ConnectStepModel::Connected { endpoint: endpoint as nat }),
        step matches ConnectStep::Failed { error, .. } ==> step.model() == (ConnectStepModel::Failed {
            error: error@,
        }),
        step matches ConnectStep::TryNext { attempt } ==> (step.model() matches ConnectStepModel::TryNext {
            next,
            last_error,
        } && next == attempt.next && (attempt.last_error is None <==> last_error is None) && (
        attempt.last_error matches Some(e) ==> last_error == Some(e@))),
{
}

} // verus!
