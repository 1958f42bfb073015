//! The proxy server's settings and the first decision it takes on a connection.

use vstd::prelude::*;
use std::sync::Arc;
use crate::socks5::SOCKS_VERSION;
use crate::target::{host_port, join_host_port};

verus! {

/// What the proxy listens on, and the shared password that HTTP clients must present.
pub struct Server {
    pub addr: String,
    pub port: u16,
    pub pass: Arc<String>,
}

impl Server {
    pub fn new(addr: &str, port: u16, pass: &str) -> (s: Self)
        ensures
            s.addr@ == addr@,
            s.port == port,
            (*s.pass)@ == pass@,
    {
        Server { addr: addr.to_owned(), port, pass: Arc::new(pass.to_owned()) }
    }
}

impl Server {
    /// The address the proxy binds: `addr:port`.
    pub fn bind_address(&self) -> (r: String)
        ensures
            r@ == host_port(self.addr@, self.port),
    {
        join_host_port(self.addr.as_str(), self.port)
    }

    /// The banner line that says how clients are authenticated.
    pub fn auth_line(&self) -> (r: &'static str)
        ensures
            r == (if (*self.pass)@.len() == 0 {
                "  Auth  : none (local-only mode)"
            } else {
                "  Auth  : X-Pass header"
            }),
    {
        if self.pass.as_str().is_empty() {
            "  Auth  : none (local-only mode)"
        } else {
            "  Auth  : X-Pass header"
        }
    }

    /// The lines printed when the proxy starts listening.
    pub fn banner(&self) -> (lines: Vec<String>)
        ensures
            lines@.len() == 4,
            lines@[0]@ == "\n:-------RustProxy (SSH-free)-------:"@,
            lines@[1]@ == "  Bind  : "@ + host_port(self.addr@, self.port),
            lines@[2]@ == (if (*self.pass)@.len() == 0 {
                "  Auth  : none (local-only mode)"
            } else {
                "  Auth  : X-Pass header"
            })@,
            lines@[3]@ == ":----------------------------------:\n"@,
    {
        let mut bind = "  Bind  : ".to_owned();
        let addr = self.bind_address();
        bind.append(addr.as_str());
        let mut lines: Vec<String> = Vec::new();
        lines.push("\n:-------RustProxy (SSH-free)-------:".to_owned());
        lines.push(bind);
        lines.push(self.auth_line().to_owned());
        lines.push(":----------------------------------:\n".to_owned());
        lines
    }
}

/// What the first packet of a client calls for.
#[derive(PartialEq, Eq, Structural, Clone, Copy, Debug)]
pub enum Dispatch {
    /// Nothing was read: close the connection.
    Close,
    /// The packet opens with the SOCKS5 version byte.
    Socks5,
    /// Anything else is taken for an HTTP request.
    Http,
}

/// Sorts a client by the first packet it sent.
pub fn dispatch(initial: &[u8]) -> (d: Dispatch)
    ensures
        d == (if initial@.len() == 0 {
            Dispatch::Close
        } else if initial@[0] == SOCKS_VERSION {
            Dispatch::Socks5
        } else {
            Dispatch::Http
        }),
{
    if initial.len() == 0 {
        Dispatch::Close
    } else if initial[0] == SOCKS_VERSION {
        Dispatch::Socks5
    } else {
        Dispatch::Http
    }
}

/// Adds ` tag subject` to a connection's log line.
pub fn append_log(log: &mut String, tag: &str, subject: &str)
    ensures
        final(log)@ == old(log)@ + " "@ + tag@ + " "@ + subject@,
{
    log.append(" ");
    log.append(tag);
    log.append(" ");
    log.append(subject);
}

} // verus!
