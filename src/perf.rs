//! Running performance counters of one connection.
use vstd::prelude::*;

use crate::info::{L7ResponseStatus, PacketDirection};

verus! {

/// Counts of one connection. Every count saturates at its type's maximum.
#[derive(Clone, Copy, Debug, PartialEq, Eq, Structural)]
pub struct L7PerfStats {
    pub request_count: u32,
    pub response_count: u32,
    pub err_client_count: u32,
    pub err_server_count: u32,
    pub err_timeout: u32,
    pub rrt_count: u32,
    pub rrt_sum: u64,
    pub rrt_max: u64,
}

impl Default for L7PerfStats {
    fn default() -> (r: Self)
        ensures
            r == L7PerfStats::empty(),
    {
        L7PerfStats {
            request_count: 0,
            response_count: 0,
            err_client_count: 0,
            err_server_count: 0,
            err_timeout: 0,
            rrt_count: 0,
            rrt_sum: 0,
            rrt_max: 0,
        }
    }
}

impl L7PerfStats {
    pub open spec fn empty() -> L7PerfStats {
        L7PerfStats {
            request_count: 0,
            response_count: 0,
            err_client_count: 0,
            err_server_count: 0,
            err_timeout: 0,
            rrt_count: 0,
            rrt_sum: 0,
            rrt_max: 0,
        }
    }

    /// The counts after one counted message: a request, or a response with
    /// the status it was classified as.
    pub open spec fn after_message(self, direction: PacketDirection, status: L7ResponseStatus) -> L7PerfStats {
        if direction == PacketDirection::ClientToServer {
            L7PerfStats { request_count: self.request_count.saturating_add(1), ..self }
        } else {
            L7PerfStats {
                response_count: self.response_count.saturating_add(1),
                err_client_count: if status == L7ResponseStatus::ClientError {
                    self.err_client_count.saturating_add(1)
                } else {
                    self.err_client_count
                },
                err_server_count: if status == L7ResponseStatus::ServerError {
                    self.err_server_count.saturating_add(1)
                } else {
                    self.err_server_count
                },
                ..self
            }
        }
    }

    /// The counts after one round-trip time sample.
    pub open spec fn after_rrt(self, rrt: u64) -> L7PerfStats {
        L7PerfStats {
            rrt_count: self.rrt_count.saturating_add(1),
            rrt_sum: self.rrt_sum.saturating_add(rrt),
            rrt_max: if rrt > self.rrt_max {
                rrt
            } else {
                self.rrt_max
            },
            ..self
        }
    }

    pub fn inc_req(&mut self)
        ensures
            *final(self) == old(self).after_message(PacketDirection::ClientToServer, L7ResponseStatus::Success),
    {
        self.request_count = self.request_count.saturating_add(1);
    }

    pub fn inc_resp(&mut self, status: L7ResponseStatus)
        ensures
            *final(self) == old(self).after_message(PacketDirection::ServerToClient, status),
    {
        self.response_count = self.response_count.saturating_add(1);
        match status {
            L7ResponseStatus::ClientError => {
                self.err_client_count = self.err_client_count.saturating_add(1);
            },
            L7ResponseStatus::ServerError => {
                self.err_server_count = self.err_server_count.saturating_add(1);
            },
            L7ResponseStatus::Success => {},
        }
    }

    pub fn update_rrt(&mut self, rrt: u64)
        ensures
            *final(self) == old(self).after_rrt(rrt),
    {
        self.rrt_count = self.rrt_count.saturating_add(1);
        self.rrt_sum = self.rrt_sum.saturating_add(rrt);
        if rrt > self.rrt_max {
            self.rrt_max = rrt;
        }
    }
}

} // verus!
