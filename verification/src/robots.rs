//! The crawl policy of a site: what a site's robots.txt allows an agent to visit.
//! The `texting_robots` crate reads the file and decides.

use texting_robots::Robot;
use vstd::prelude::*;

verus! {

/// Whether `Robot::new` reads the robots.txt text `body` for `agent`.
pub uninterp spec fn robots_readable(agent: Seq<char>, body: Seq<char>) -> bool;

/// What `Robot::allowed` answers for `url`, on the `Robot` that `Robot::new`
/// builds for `agent` from the robots.txt text `body`.
pub uninterp spec fn robots_allows(agent: Seq<char>, body: Seq<char>, url: Seq<char>) -> bool;

/// `Robot::new`, asked only whether it succeeds.
#[verifier::external_body]
fn robot_reads(agent: &str, body: &str) -> (readable: bool)
    ensures
        readable == robots_readable(agent@, body@),
{
    Robot::new(agent, body.as_bytes()).is_ok()
}

/// `Robot::allowed`, on the `Robot` that `Robot::new` builds from `agent`
/// and `body`.
#[verifier::external_body]
fn robot_allows(agent: &str, body: &str, url: &str) -> (allowed: bool)
    requires
        robots_readable(agent@, body@),
    ensures
        allowed == robots_allows(agent@, body@, url@),
{
    Robot::new(agent, body.as_bytes()).unwrap().allowed(url)
}

/// The crawl policy of one site for one agent.
pub struct Policy {
    agent: String,
    body: String,
}

impl Policy {
    #[verifier::type_invariant]
    spec fn well_formed(self) -> bool {
        robots_readable(self.agent@, self.body@)
    }

    /// The agent that the policy is for.
    pub closed spec fn agent(&self) -> Seq<char> {
        self.agent@
    }

    /// The robots.txt text that the policy was read from.
    pub closed spec fn body(&self) -> Seq<char> {
        self.body@
    }

    /// Reads a site's robots.txt for `user_agent`, or nothing where the text
    /// cannot be read.
    pub fn new(user_agent: &str, robots_txt: &str) -> (policy: Option<Policy>)
        ensures
            policy.is_some() == robots_readable(user_agent@, robots_txt@),
            policy matches Some(p) ==> p.agent() == user_agent@ && p.body() == robots_txt@,
    {
        if robot_reads(user_agent, robots_txt) {
            Some(Policy { agent: user_agent.to_owned(), body: robots_txt.to_owned() })
        } else {
            None
        }
    }

    /// Whether the policy lets the agent visit `url`.
    pub fn allowed(&self, url: &str) -> (allowed: bool)
        ensures
            allowed == robots_allows(self.agent(), self.body(), url@),
    {
        proof {
            use_type_invariant(self);
        }
        robot_allows(self.agent.as_str(), self.body.as_str(), url)
    }
}

/// What the policy says of `url`: nothing where the robots.txt text
/// cannot be read, else whether the visit is allowed.
pub open spec fn verdict(agent: Seq<char>, body: Seq<char>, url: Seq<char>) -> Option<bool> {
    if robots_readable(agent, body) {
        Some(robots_allows(agent, body, url))
    } else {
        None
    }
}

} // verus!
