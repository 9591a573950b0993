//! Bookkeeping of the adaptive HTTP connection pool: its errors and the
//! counters of acquisitions from which its metrics are reported.

use vstd::prelude::*;
use crate::metrics::ConnectionPoolMetrics;
use crate::text::string_of;

verus! {

/// Why a connection could not be had.
#[derive(Debug, Clone, Copy, PartialEq, Eq, Structural)]
pub enum PoolError {
    /// No connection became free in time.
    AcquisitionTimeout,
    /// The pool was closed.
    PoolClosed,
}

/// The message of a pool error.
pub open spec fn pool_error_text(e: PoolError) -> Seq<char> {
    match e {
        PoolError::AcquisitionTimeout => "Connection acquisition timed out"@,
        PoolError::PoolClosed => "Connection pool is closed"@,
    }
}

impl PoolError {
    /// The message of the error.
    pub fn to_string(&self) -> (res: String)
        ensures
            res@ == pool_error_text(*self),
    {
        match self {
            PoolError::AcquisitionTimeout => string_of("Connection acquisition timed out"),
            PoolError::PoolClosed => string_of("Connection pool is closed"),
        }
    }
}

/// Counters of a pool: connections in use, acquisition attempts, successes
/// and failures. Both kinds of failure are counted as timeouts.
#[derive(Debug, Clone, Copy, PartialEq, Eq, Structural)]
pub struct PoolStats {
    pub active_connections: u32,
    pub idle_connections: u32,
    pub total_acquires: u64,
    pub successful_acquires: u64,
    pub timeouts: u64,
}

impl PoolStats {
    /// Successes and failures never outnumber the attempts.
    pub open spec fn wf(&self) -> bool {
        self.successful_acquires + self.timeouts <= self.total_acquires
    }

    /// All counters zero.
    pub fn default() -> (res: PoolStats)
        ensures
            res.wf(),
            res == (PoolStats { active_connections: 0, idle_connections: 0, total_acquires: 0, successful_acquires: 0, timeouts: 0 }),
    {
        PoolStats { active_connections: 0, idle_connections: 0, total_acquires: 0, successful_acquires: 0, timeouts: 0 }
    }

    /// Counts an attempt to acquire a connection.
    pub fn record_attempt(&mut self)
        requires
            old(self).total_acquires < u64::MAX,
        ensures
            *final(self) == (PoolStats { total_acquires: (old(self).total_acquires + 1) as u64, ..*old(self) }),
            old(self).wf() ==> final(self).wf(),
    {
        self.total_acquires = self.total_acquires + 1;
    }

    /// Counts the success of the pending attempt: one more connection is in
    /// use.
    pub fn record_success(&mut self)
        requires
            old(self).successful_acquires + old(self).timeouts < old(self).total_acquires,
            old(self).active_connections < u32::MAX,
        ensures
            *final(self) == (PoolStats {
                successful_acquires: (old(self).successful_acquires + 1) as u64,
                active_connections: (old(self).active_connections + 1) as u32,
                ..*old(self)
            }),
            final(self).wf(),
    {
        self.successful_acquires = self.successful_acquires + 1;
        self.active_connections = self.active_connections + 1;
    }

    /// Counts the failure of the pending attempt, whether it timed out or
    /// found the pool closed.
    pub fn record_failure(&mut self, error: PoolError)
        requires
            old(self).successful_acquires + old(self).timeouts < old(self).total_acquires,
        ensures
            *final(self) == (PoolStats { timeouts: (old(self).timeouts + 1) as u64, ..*old(self) }),
            final(self).wf(),
    {
        self.timeouts = self.timeouts + 1;
    }

    /// Counts a connection given back; the count of connections in use never
    /// drops below zero.
    pub fn record_release(&mut self)
        ensures
            *final(self) == (PoolStats {
                active_connections: if old(self).active_connections == 0 { 0 } else { (old(self).active_connections - 1) as u32 },
                ..*old(self)
            }),
            old(self).wf() ==> final(self).wf(),
    {
        self.active_connections = self.active_connections.saturating_sub(1);
    }

    /// The pool's metrics given the number of free permits: the free
    /// permits are the idle connections, the pool's size is free plus in
    /// use, and errors are the attempts that neither succeeded nor timed out.
    pub fn metrics(&self, available_permits: u32) -> (res: ConnectionPoolMetrics)
        requires
            self.wf(),
            available_permits + self.active_connections <= u32::MAX,
        ensures
            res.active_connections == self.active_connections,
            res.idle_connections == available_permits,
            res.total_connections == available_permits + self.active_connections,
            res.connection_acquires == self.total_acquires,
            res.connection_timeouts == self.timeouts,
            res.connection_errors == self.total_acquires - self.successful_acquires - self.timeouts,
    {
        ConnectionPoolMetrics {
            active_connections: self.active_connections,
            idle_connections: available_permits,
            total_connections: available_permits + self.active_connections,
            connection_acquires: self.total_acquires,
            connection_timeouts: self.timeouts,
            connection_errors: self.total_acquires - self.successful_acquires - self.timeouts,
        }
    }
}

} // verus!
