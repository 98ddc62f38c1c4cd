//! Decoy request descriptors and the cover-traffic schedule: a target rate
//! `r` decoys per second (configured in thousandths, so rates below one per
//! second remain expressible), each emitted after a wait drawn uniformly from
//! `[0, 2/r)` seconds (mean `1/r` — a coarse approximation of a memoryless
//! arrival process, kept deliberately).
//!
//! The sleeping and the delivery callback live with the caller; the library
//! decides the wait and synthesizes the request.

use vstd::prelude::*;
use crate::CryptoError;
use crate::primitives::{rand_below, random_bytes, uuid_v4_string};

verus! {

/// The HTTP methods a decoy request may carry.
#[derive(Clone, Copy, Debug, PartialEq, Eq, Structural)]
pub enum HttpMethod {
    GET,
    POST,
    PUT,
    DELETE,
}

impl HttpMethod {
    /// The name of each method.
    pub open spec fn spec_str(self) -> Seq<char> {
        match self {
            HttpMethod::GET => "GET"@,
            HttpMethod::POST => "POST"@,
            HttpMethod::PUT => "PUT"@,
            HttpMethod::DELETE => "DELETE"@,
        }
    }

    /// Whether the method writes a body.
    pub open spec fn spec_is_write(self) -> bool {
        self == HttpMethod::POST || self == HttpMethod::PUT
    }

    /// The method's name.
    pub fn as_str(&self) -> (r: &'static str)
        ensures
            r@ == self.spec_str(),
    {
        match self {
            HttpMethod::GET => "GET",
            HttpMethod::POST => "POST",
            HttpMethod::PUT => "PUT",
            HttpMethod::DELETE => "DELETE",
        }
    }

    /// A method drawn uniformly from the four.
    pub fn random() -> Self {
        let v = rand_below(4);
        if v == 0 {
            HttpMethod::GET
        } else if v == 1 {
            HttpMethod::POST
        } else if v == 2 {
            HttpMethod::PUT
        } else {
            HttpMethod::DELETE
        }
    }
}

/// The fixed pool of decoy URLs.
pub open spec fn spec_url_pool() -> Seq<Seq<char>> {
    seq![
        "https://example.com"@,
        "https://example.org/api/v1/users"@,
        "https://api.service.io/data"@,
        "https://cdn.content.net/assets"@,
        "https://search.services.org/query"@,
    ]
}

/// A decoy request descriptor: ephemeral, never stored beyond its emission.
#[derive(Clone, Debug)]
pub struct FakeHttpRequest {
    pub id: String,
    pub method: String,
    pub url: String,
    pub data: Vec<u8>,
}

impl FakeHttpRequest {
    /// Synthesizes a decoy: a fresh UUID, a method drawn from the four, a
    /// URL drawn from the fixed pool, and — for write-style methods — a
    /// random payload of 10 to 99 bytes. Fails with a `Scheduler` error only
    /// when the payload's random source does.
    pub fn random() -> (result: Result<FakeHttpRequest, CryptoError>)
        ensures
            result matches Err(e) ==> e == CryptoError::Scheduler,
            result matches Ok(r) ==> {
                &&& r.id@.len() == 36
                &&& r.method@ == HttpMethod::GET.spec_str() || r.method@
                    == HttpMethod::POST.spec_str() || r.method@ == HttpMethod::PUT.spec_str()
                    || r.method@ == HttpMethod::DELETE.spec_str()
                &&& spec_url_pool().contains(r.url@)
                &&& (r.method@ == HttpMethod::POST.spec_str() || r.method@
                    == HttpMethod::PUT.spec_str()) ==> 10 <= r.data@.len() < 100
                &&& !(r.method@ == HttpMethod::POST.spec_str() || r.method@
                    == HttpMethod::PUT.spec_str()) ==> r.data@.len() == 0
            },
    {
        proof {
            reveal_strlit("GET");
            reveal_strlit("POST");
            reveal_strlit("PUT");
            reveal_strlit("DELETE");
            assert("GET"@.len() == 3);
            assert("POST"@.len() == 4);
            assert("PUT"@.len() == 3);
            assert("DELETE"@.len() == 6);
            assert("GET"@[0] == 'G');
            assert("PUT"@[0] == 'P');
            assert("GET"@ != "POST"@);
            assert("GET"@ != "PUT"@);
            assert("DELETE"@ != "POST"@);
            assert("DELETE"@ != "PUT"@);
        }
        let method = HttpMethod::random();
        let is_write = match method {
            HttpMethod::POST => true,
            HttpMethod::PUT => true,
            _ => false,
        };
        let data = if is_write {
            match random_bytes(10 + rand_below(90) as usize) {
                Ok(d) => d,
                Err(_) => return Err(CryptoError::Scheduler),
            }
        } else {
            Vec::new()
        };
        let url_lit = {
            let v = rand_below(5);
            if v == 0 {
                let u = "https://example.com";
                proof {
                    assert(spec_url_pool()[0] == u@);
                }
                u
            } else if v == 1 {
                let u = "https://example.org/api/v1/users";
                proof {
                    assert(spec_url_pool()[1] == u@);
                }
                u
            } else if v == 2 {
                let u = "https://api.service.io/data";
                proof {
                    assert(spec_url_pool()[2] == u@);
                }
                u
            } else if v == 3 {
                let u = "https://cdn.content.net/assets";
                proof {
                    assert(spec_url_pool()[3] == u@);
                }
                u
            } else {
                let u = "https://search.services.org/query";
                proof {
                    assert(spec_url_pool()[4] == u@);
                }
                u
            }
        };
        proof {
            assert(spec_url_pool().contains(url_lit@));
        }
        Ok(
            FakeHttpRequest {
                id: uuid_v4_string(),
                method: method.as_str().to_owned(),
                url: url_lit.to_owned(),
                data,
            },
        )
    }
}

/// The cover-traffic schedule: a target rate and an activity flag. The loop
/// that sleeps and delivers requests runs with the caller, which must halt it
/// through an explicit signal rather than this flag alone.
pub struct FakeTrafficGenerator {
    /// The target rate, in thousandths of a decoy per second: 500 is one
    /// decoy every two seconds on average.
    pub rate_per_mille: u32,
    pub active: bool,
}

impl FakeTrafficGenerator {
    /// Creates an inactive generator with the given target rate, in
    /// thousandths of a decoy per second.
    pub fn new(rate_per_mille: u32) -> (r: Self)
        ensures
            r.rate_per_mille == rate_per_mille,
            !r.active,
    {
        FakeTrafficGenerator { rate_per_mille, active: false }
    }

    /// Marks the generator active.
    pub fn activate(&mut self)
        ensures
            final(self).active,
            final(self).rate_per_mille == old(self).rate_per_mille,
    {
        self.active = true;
    }

    /// Marks the generator inactive.
    pub fn stop(&mut self)
        ensures
            !final(self).active,
            final(self).rate_per_mille == old(self).rate_per_mille,
    {
        self.active = false;
    }

    /// The wait before the next decoy, in milliseconds: drawn uniformly below
    /// twice the mean interval `1_000_000 / rate_per_mille`; ten seconds when
    /// the rate is zero.
    pub fn next_wait_ms(&self) -> (r: u64)
        ensures
            self.rate_per_mille == 0 ==> r == 10_000,
            self.rate_per_mille > 0 ==> {
                let bound = 2_000_000u64 / (self.rate_per_mille as u64);
                if bound == 0 {
                    r == 0
                } else {
                    r < bound
                }
            },
    {
        if self.rate_per_mille == 0 {
            return 10_000;
        }
        let bound = 2_000_000u64 / (self.rate_per_mille as u64);
        if bound == 0 {
            0
        } else {
            rand_below(bound)
        }
    }
}

} // verus!
