//! The address at which the backend serves requests.
use vstd::prelude::*;
use crate::text::{decimal, push_decimal};

verus! {

/// Host and port of the backend; fixed once the supervisor starts.
#[derive(Debug)]
pub struct Endpoint {
    pub host: String,
    pub port: u16,
}

impl Endpoint {
    /// `host:port`, as it stands in a URL and in a `Host` header.
    pub open spec fn spec_authority(self) -> Seq<char> {
        self.host@ + seq![':'] + decimal(self.port as nat)
    }

    pub open spec fn spec_base_url(self) -> Seq<char> {
        "http://"@ + self.spec_authority()
    }

    pub open spec fn spec_host_flag(self) -> Seq<char> {
        "--host="@ + self.host@
    }

    pub open spec fn spec_port_flag(self) -> Seq<char> {
        "--port="@ + decimal(self.port as nat)
    }

    /// The loopback endpoint on port 8000.
    pub fn local_default() -> (r: Endpoint)
        ensures
            r.host@ == "127.0.0.1"@,
            r.port == 8000,
    {
        Endpoint { host: String::from_str("127.0.0.1"), port: 8000 }
    }

    pub fn authority(&self) -> (r: String)
        ensures
            r@ == self.spec_authority(),
    {
        let mut s = self.host.clone();
        proof {
            reveal_strlit(":");
        }
        s.append(":");
        push_decimal(&mut s, self.port as u64);
        assert(s@ =~= self.spec_authority());
        s
    }

    /// The URL that every request path is appended to.
    pub fn base_url(&self) -> (r: String)
        ensures
            r@ == self.spec_base_url(),
    {
        let a = self.authority();
        let s = String::from_str("http://").concat(a.as_str());
        s
    }

    /// The startup flags that tell the backend where to listen.
    pub fn startup_flags(&self) -> (r: (String, String))
        ensures
            r.0@ == self.spec_host_flag(),
            r.1@ == self.spec_port_flag(),
    {
        let h = String::from_str("--host=").concat(self.host.as_str());
        let mut p = String::from_str("--port=");
        push_decimal(&mut p, self.port as u64);
        (h, p)
    }
}

} // verus!
