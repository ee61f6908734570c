use vstd::prelude::*;

verus! {

/// The headers a cross-origin request is granted: they echo the requesting
/// origin, allow the three methods the gateway serves, and allow
/// credentials.
pub struct CorsGrant {
    pub allow_origin: String,
    pub allow_methods: String,
    pub allow_credentials: bool,
}

/// The gateway's cross-origin policy: exactly one trusted web origin may
/// call the endpoint from a browser, with credentials.
pub struct CorsPolicy {
    allowed_origin: String,
}

impl CorsPolicy {
    /// The one origin this policy trusts.
    pub closed spec fn origin(&self) -> Seq<char> {
        self.allowed_origin@
    }

    /// The policy the gateway ships with.
    pub fn trusted() -> (p: CorsPolicy)
        ensures
            p.origin() == "https://studio.apollographql.com"@,
    {
        CorsPolicy { allowed_origin: String::from_str("https://studio.apollographql.com") }
    }

    /// A policy for a host that configures another trusted origin.
    pub fn with_origin(allowed_origin: String) -> (p: CorsPolicy)
        ensures
            p.origin() == allowed_origin@,
    {
        CorsPolicy { allowed_origin }
    }

    /// The trusted origin's text, for the host to hand to its middleware.
    pub fn origin_text(&self) -> (s: &String)
        ensures
            s@ == self.origin(),
    {
        &self.allowed_origin
    }

    /// Decides one request's origin.  A grant comes back exactly when the
    /// origin is the trusted one, and every grant echoes that origin,
    /// allows GET, POST and OPTIONS, and allows credentials.  Any other
    /// origin gets nothing: no headers, no credentialed approval.
    pub fn approve(&self, origin: &String) -> (grant: Option<CorsGrant>)
        ensures
            grant is Some <==> origin@ == self.origin(),
            grant matches Some(g) ==> {
                &&& g.allow_origin@ == origin@
                &&& g.allow_methods@ == "GET, POST, OPTIONS"@
                &&& g.allow_credentials
            },
    {
        if *origin == self.allowed_origin {
            Some(
                CorsGrant {
                    allow_origin: origin.clone(),
                    allow_methods: String::from_str("GET, POST, OPTIONS"),
                    allow_credentials: true,
                },
            )
        } else {
            None
        }
    }
}

/// Only the trusted origin is approved, stated as a law over the policy's
/// contract: an origin that is not the trusted one receives no grant, and
/// an origin that does receive one is the trusted one — so credentialed
/// approval never reaches an untrusted origin.
pub proof fn lemma_only_trusted_origin_approved(
    policy: CorsPolicy,
    origin: Seq<char>,
    granted: bool,
)
    requires
        granted <==> origin == policy.origin(),
    ensures
        origin != policy.origin() ==> !granted,
        granted ==> origin == policy.origin(),
{
}

} // verus!
