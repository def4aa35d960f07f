//! The state of the database connection and the descriptor of a connection attempt.

use vstd::prelude::*;

verus! {

/// At most this many connections are kept in the pool.
pub const MAX_CONNECTIONS: u32 = 5;

/// A connection attempt gives up after this many seconds.
pub const ACQUIRE_TIMEOUT_SECS: u64 = 3;

/// Names an open connection pool. The pool itself lives with whoever opened
/// it; the controller only passes the name on.
#[derive(Clone, Copy, Debug, PartialEq, Eq, Structural)]
pub struct ConnectionHandle {
    pub id: u64,
}

/// A connection state as a mathematical value.
pub enum ConnectionView {
    Disconnected,
    Connecting,
    Connected(ConnectionHandle),
    Failed(Seq<char>),
}

impl ConnectionView {
    /// The handle of the open connection, if one is open.
    pub open spec fn handle(self) -> Option<ConnectionHandle> {
        match self {
            ConnectionView::Connected(handle) => Some(handle),
            _ => None,
        }
    }

    /// Why the last attempt failed, if it did.
    pub open spec fn reason(self) -> Option<Seq<char>> {
        match self {
            ConnectionView::Failed(reason) => Some(reason),
            _ => None,
        }
    }

    /// The two words of the status line.
    pub open spec fn status(self) -> Seq<char> {
        if self is Connected {
            "Connected"@
        } else {
            "Disconnected"@
        }
    }
}

/// Where the connection stands. A handle exists exactly in `Connected`, a
/// failure reason exactly in `Failed`.
#[derive(Debug, PartialEq, Eq)]
pub enum ConnectionState {
    Disconnected,
    Connecting,
    Connected(ConnectionHandle),
    Failed(String),
}

impl View for ConnectionState {
    type V = ConnectionView;

    open spec fn view(&self) -> ConnectionView {
        match self {
            ConnectionState::Disconnected => ConnectionView::Disconnected,
            ConnectionState::Connecting => ConnectionView::Connecting,
            ConnectionState::Connected(handle) => ConnectionView::Connected(*handle),
            ConnectionState::Failed(reason) => ConnectionView::Failed(reason@),
        }
    }
}

impl Clone for ConnectionState {
    fn clone(&self) -> (copy: Self)
        ensures
            copy@ == self@,
    {
        match self {
            ConnectionState::Disconnected => ConnectionState::Disconnected,
            ConnectionState::Connecting => ConnectionState::Connecting,
            ConnectionState::Connected(handle) => ConnectionState::Connected(*handle),
            ConnectionState::Failed(reason) => ConnectionState::Failed(reason.clone()),
        }
    }
}

impl ConnectionState {
    /// The handle of the open connection, if one is open.
    pub fn handle(&self) -> (handle: Option<ConnectionHandle>)
        ensures
            handle == self@.handle(),
    {
        match self {
            ConnectionState::Connected(handle) => Some(*handle),
            _ => None,
        }
    }

    /// Whether a connection is open.
    pub fn is_connected(&self) -> (open: bool)
        ensures
            open == (self@ is Connected),
    {
        match self {
            ConnectionState::Connected(_) => true,
            _ => false,
        }
    }

    /// Why the last attempt failed, if it did.
    pub fn error(&self) -> (reason: Option<&str>)
        ensures
            reason is Some <==> self@ is Failed,
            reason is Some ==> Some(reason->0@) == self@.reason(),
    {
        match self {
            ConnectionState::Failed(reason) => Some(reason.as_str()),
            _ => None,
        }
    }

    /// The text of the status line: connected or not.
    pub fn status_text(&self) -> (text: &'static str)
        ensures
            text@ == self@.status(),
    {
        if self.is_connected() {
            "Connected"
        } else {
            "Disconnected"
        }
    }
}

/// The address of the database `db_name` on this machine, for the user
/// `postgres` with this password.
pub open spec fn connection_url(db_name: Seq<char>, password: Seq<char>) -> Seq<char> {
    "postgres://postgres:"@ + password + "@localhost/"@ + db_name
}

/// A connection descriptor as a mathematical value.
pub struct ConnectOptionsView {
    pub url: Seq<char>,
    pub max_connections: u32,
    pub acquire_timeout_secs: u64,
}

impl ConnectOptionsView {
    /// The descriptor for a database name and a password, with the fixed
    /// pool size and timeout.
    pub open spec fn for_database(db_name: Seq<char>, password: Seq<char>) -> ConnectOptionsView {
        ConnectOptionsView {
            url: connection_url(db_name, password),
            max_connections: MAX_CONNECTIONS,
            acquire_timeout_secs: ACQUIRE_TIMEOUT_SECS,
        }
    }
}

/// Everything that opening a connection needs.
#[derive(Debug, PartialEq, Eq)]
pub struct ConnectOptions {
    pub url: String,
    pub max_connections: u32,
    pub acquire_timeout_secs: u64,
}

impl View for ConnectOptions {
    type V = ConnectOptionsView;

    open spec fn view(&self) -> ConnectOptionsView {
        ConnectOptionsView {
            url: self.url@,
            max_connections: self.max_connections,
            acquire_timeout_secs: self.acquire_timeout_secs,
        }
    }
}

impl ConnectOptions {
    /// Builds the descriptor for a database name and a password.
    pub fn new(db_name: &str, password: &str) -> (options: Self)
        ensures
            options@ == ConnectOptionsView::for_database(db_name@, password@),
    {
        let mut url = "postgres://postgres:".to_owned();
        url.append(password);
        url.append("@localhost/");
        url.append(db_name);
        ConnectOptions {
            url,
            max_connections: MAX_CONNECTIONS,
            acquire_timeout_secs: ACQUIRE_TIMEOUT_SECS,
        }
    }
}

} // verus!
