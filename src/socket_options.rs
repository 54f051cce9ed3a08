use vstd::prelude::*;

verus! {

/// The keep-alive interval used when keep-alive is on and no positive
/// interval was given.
pub const DEFAULT_TCP_KEEPALIVE_INTERVAL_MILLIS: u64 = 42000;

/// Socket-related options handed over from the host by value.
///
/// Some of the host's socket options (address reuse, linger, buffer sizes)
/// have no counterpart in the session builder and are not carried here.
#[derive(Clone, Copy, Debug, Default)]
pub struct SocketOptions {
    /// Connection timeout in milliseconds; a value of 0 or less keeps the default.
    pub connect_timeout_millis: i32,
    /// Whether to set `TCP_NODELAY`.
    pub tcp_nodelay: bool,
    /// Whether to turn TCP keep-alive on.
    pub keepalive: bool,
    /// TCP keep-alive interval in milliseconds; a value of 0 or less keeps the default.
    pub tcp_keepalive_interval_millis: i64,
}

/// What a `SocketOptions` asks of the session builder.
#[derive(Clone, Copy, Debug, PartialEq, Eq)]
pub struct SocketSettings {
    /// The connection timeout to set, if any.
    pub connect_timeout_millis: Option<u64>,
    /// The `TCP_NODELAY` flag, which is always set.
    pub tcp_nodelay: bool,
    /// The TCP keep-alive interval to set, if any.
    pub tcp_keepalive_interval_millis: Option<u64>,
}

impl SocketOptions {
    /// The settings that these options ask for.
    pub open spec fn spec_settings(self) -> SocketSettings {
        SocketSettings {
            connect_timeout_millis: if self.connect_timeout_millis > 0 {
                Some(self.connect_timeout_millis as u64)
            } else {
                None
            },
            tcp_nodelay: self.tcp_nodelay,
            tcp_keepalive_interval_millis: if !self.keepalive {
                None
            } else if self.tcp_keepalive_interval_millis > 0 {
                Some(self.tcp_keepalive_interval_millis as u64)
            } else {
                Some(DEFAULT_TCP_KEEPALIVE_INTERVAL_MILLIS)
            },
        }
    }

    /// The settings that these options ask for.
    pub fn settings(&self) -> (r: SocketSettings)
        ensures
            r == self.spec_settings(),
    {
        let connect_timeout_millis = if self.connect_timeout_millis > 0 {
            Some(self.connect_timeout_millis as u64)
        } else {
            None
        };
        let tcp_keepalive_interval_millis = if !self.keepalive {
            None
        } else if self.tcp_keepalive_interval_millis > 0 {
            Some(self.tcp_keepalive_interval_millis as u64)
        } else {
            Some(DEFAULT_TCP_KEEPALIVE_INTERVAL_MILLIS)
        };
        SocketSettings {
            connect_timeout_millis,
            tcp_nodelay: self.tcp_nodelay,
            tcp_keepalive_interval_millis,
        }
    }
}

} // verus!
