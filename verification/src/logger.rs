//! The request log record: what is known of one proxied request once its
//! outcome is decided.

use vstd::prelude::*;
use vstd::string::StringExecFns;
use crate::text::decimal;
use crate::text::push_decimal;
use crate::text::text_of;

verus! {

/// A snapshot of one completed or failed proxy attempt. It is built once,
/// when the outcome is known, and not changed after it was handed on.
#[derive(Debug, Clone)]
pub struct RequestLog {
    /// The virtual host that was asked for.
    pub domain: String,
    /// The request path.
    pub path: String,
    /// The request method.
    pub method: String,
    /// The HTTP status given to the client.
    pub status: u16,
    /// Milliseconds from the arrival of the request to its outcome.
    pub response_time_ms: u128,
    /// Bytes of response body sent to the client.
    pub bytes_sent: u64,
    /// The client's address, when known.
    pub ip_address: Option<String>,
    /// The client's `User-Agent` header, when sent.
    pub user_agent: Option<String>,
    /// The client's `Referer` header, when sent.
    pub referer: Option<String>,
    /// Seconds since the Unix epoch at which the record was made.
    pub timestamp: i64,
}

/// A log record as plain values.
pub ghost struct LogRecord {
    pub domain: Seq<char>,
    pub path: Seq<char>,
    pub method: Seq<char>,
    pub status: u16,
    pub response_time_ms: u128,
    pub bytes_sent: u64,
    pub ip_address: Option<Seq<char>>,
    pub user_agent: Option<Seq<char>>,
    pub referer: Option<Seq<char>>,
    pub timestamp: i64,
}

/// The given text, or `unknown` where there is none.
pub open spec fn or_unknown(s: Option<Seq<char>>) -> Seq<char> {
    match s {
        Some(t) => t,
        None => "unknown"@,
    }
}

/// The record with nothing known of the client and no bytes sent.
pub open spec fn bare_record(
    domain: Seq<char>,
    path: Seq<char>,
    method: Seq<char>,
    status: u16,
    response_time_ms: u128,
    timestamp: i64,
) -> LogRecord {
    LogRecord {
        domain,
        path,
        method,
        status,
        response_time_ms,
        bytes_sent: 0,
        ip_address: None,
        user_agent: None,
        referer: None,
        timestamp,
    }
}

/// The one-line summary of a record:
/// `logs: METHOD DOMAIN PATH - STATUS in MILLISms | IP: ADDRESS | UA: AGENT`,
/// with the numbers in decimal and `unknown` for an address or agent that is
/// not known.
pub open spec fn summary_line(r: LogRecord) -> Seq<char> {
    "logs: "@ + r.method + " "@ + r.domain + " "@ + r.path + " - "@ + decimal(r.status as nat)
        + " in "@ + decimal(r.response_time_ms as nat) + "ms | IP: "@ + or_unknown(r.ip_address)
        + " | UA: "@ + or_unknown(r.user_agent)
}

impl View for RequestLog {
    type V = LogRecord;

    open spec fn view(&self) -> LogRecord {
        LogRecord {
            domain: self.domain@,
            path: self.path@,
            method: self.method@,
            status: self.status,
            response_time_ms: self.response_time_ms,
            bytes_sent: self.bytes_sent,
            ip_address: text_of(self.ip_address),
            user_agent: text_of(self.user_agent),
            referer: text_of(self.referer),
            timestamp: self.timestamp,
        }
    }
}

impl RequestLog {
    /// A record of a request for `path` on `domain` that ended with `status`
    /// after `response_time_ms`, made at `timestamp`. No bytes are counted and
    /// nothing is known of the client yet.
    pub fn new(
        domain: String,
        path: String,
        method: String,
        status: u16,
        response_time_ms: u128,
        timestamp: i64,
    ) -> (log: RequestLog)
        ensures
            log@ == bare_record(domain@, path@, method@, status, response_time_ms, timestamp),
    {
        RequestLog {
            domain,
            path,
            method,
            status,
            response_time_ms,
            bytes_sent: 0,
            ip_address: None,
            user_agent: None,
            referer: None,
            timestamp,
        }
    }

    /// The record with the client's address set to `ip`.
    pub fn with_ip(self, ip: String) -> (log: RequestLog)
        ensures
            log@ == (LogRecord { ip_address: Some(ip@), ..self@ }),
    {
        let mut log = self;
        log.ip_address = Some(ip);
        log
    }

    /// The record with the client's user agent set to `user_agent`.
    pub fn with_user_agent(self, user_agent: String) -> (log: RequestLog)
        ensures
            log@ == (LogRecord { user_agent: Some(user_agent@), ..self@ }),
    {
        let mut log = self;
        log.user_agent = Some(user_agent);
        log
    }

    /// The record with the referring page set to `referer`.
    pub fn with_referer(self, referer: String) -> (log: RequestLog)
        ensures
            log@ == (LogRecord { referer: Some(referer@), ..self@ }),
    {
        let mut log = self;
        log.referer = Some(referer);
        log
    }

    /// The record with the count of body bytes set to `bytes`.
    pub fn with_bytes(self, bytes: u64) -> (log: RequestLog)
        ensures
            log@ == (LogRecord { bytes_sent: bytes, ..self@ }),
    {
        let mut log = self;
        log.bytes_sent = bytes;
        log
    }

    /// The one-line summary of the record, for the caller to emit as a log
    /// event.
    pub fn log(&self) -> (line: String)
        ensures
            line@ == summary_line(self@),
    {
        let mut line = String::from_str("logs: ");
        line.append(self.method.as_str());
        line.append(" ");
        line.append(self.domain.as_str());
        line.append(" ");
        line.append(self.path.as_str());
        line.append(" - ");
        push_decimal(&mut line, self.status as u128);
        line.append(" in ");
        push_decimal(&mut line, self.response_time_ms);
        line.append("ms | IP: ");
        match &self.ip_address {
            Some(ip) => line.append(ip.as_str()),
            None => line.append("unknown"),
        }
        line.append(" | UA: ");
        match &self.user_agent {
            Some(agent) => line.append(agent.as_str()),
            None => line.append("unknown"),
        }
        line
    }
}

} // verus!
