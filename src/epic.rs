use vstd::prelude::*;
use vstd::string::StringExecFns;

verus! {

/// The token that the matchmaking service grants a client.
#[derive(Debug, Clone, PartialEq, Eq, Default)]
pub struct ClientTokenResponse {
    pub access_token: String,
}

/// A session search: sessions that meet every criterion.
#[derive(Debug, Clone, PartialEq, Eq, Default)]
pub struct Request {
    pub criteria: Vec<SessionFilter>,
}

/// One criterion of a session search: `key`, comparison `op`, `value`.
#[derive(Debug, Clone, PartialEq, Eq, Default)]
pub struct SessionFilter {
    pub key: String,
    pub op: String,
    pub value: String,
}

/// The settings of a session.
#[derive(Debug, Clone, PartialEq, Eq, Default)]
pub struct Settings {
    pub max_public_players: u32,
    pub allow_invites: bool,
    pub should_advertise: bool,
    pub allow_read_by_id: bool,
    pub allow_join_via_presence: bool,
    pub allow_join_in_progress: bool,
    pub allow_conference_room: bool,
    pub check_sanctions: bool,
    pub allow_migration: bool,
    pub rejoin_after_kick: String,
    pub platforms: Option<Vec<String>>,
}

/// A form-encoded POST: the path and the form's fields, in order.
#[derive(Debug, Clone, PartialEq, Eq)]
pub struct FormPost {
    pub path: String,
    pub fields: Vec<(String, String)>,
}

/// A JSON POST of a session search.
#[derive(Debug, Clone, PartialEq, Eq)]
pub struct JsonPost {
    pub path: String,
    pub body: Request,
}

impl Request {
    /// A search with no criterion.
    pub fn new() -> (r: Request)
        ensures
            r.criteria@.len() == 0,
    {
        Request { criteria: Vec::new() }
    }

    /// The search with `filter` added after the criteria it has.
    pub fn add_filter(self, filter: SessionFilter) -> (r: Request)
        ensures
            r.criteria@ == self.criteria@.push(filter),
    {
        let mut criteria = self.criteria;
        criteria.push(filter);
        Request { criteria }
    }
}

impl SessionFilter {
    /// The criterion `key op value`.
    pub fn new(key: &str, op: &str, value: &str) -> (r: SessionFilter)
        ensures
            r.key@ == key@,
            r.op@ == op@,
            r.value@ == value@,
    {
        SessionFilter { key: key.to_owned(), op: op.to_owned(), value: value.to_owned() }
    }
}

/// The path of the token endpoint.
pub open spec fn token_path() -> Seq<char> {
    "/auth/v1/oauth/token"@
}

/// The path of the session search of a deployment.
pub open spec fn filter_path(deployment_id: Seq<char>) -> Seq<char> {
    "/matchmaking/v1/"@ + deployment_id + "/filter"@
}

/// The request for a client-credentials token of a deployment.
pub fn get_client_oauth_token(deployment_id: &str) -> (r: FormPost)
    ensures
        r.path@ == token_path(),
        r.fields@.len() == 2,
        r.fields@[0].0@ == "grant_type"@,
        r.fields@[0].1@ == "client_credentials"@,
        r.fields@[1].0@ == "deployment_id"@,
        r.fields@[1].1@ == deployment_id@,
{
    let mut fields: Vec<(String, String)> = Vec::new();
    fields.push(("grant_type".to_owned(), "client_credentials".to_owned()));
    fields.push(("deployment_id".to_owned(), deployment_id.to_owned()));
    FormPost { path: "/auth/v1/oauth/token".to_owned(), fields }
}

/// The search for the sessions of a deployment.
pub fn get_server_info(deployment_id: &str) -> (r: JsonPost)
    ensures
        r.path@ == filter_path(deployment_id@),
        r.body.criteria@.len() == 1,
        r.body.criteria@[0].key@ == "deployment_id"@,
        r.body.criteria@[0].op@ == "eq"@,
        r.body.criteria@[0].value@ == deployment_id@,
{
    let filter = SessionFilter::new("deployment_id", "eq", deployment_id);
    let request = Request::new().add_filter(filter);
    let mut path = String::from_str("/matchmaking/v1/");
    path.append(deployment_id);
    path.append("/filter");
    JsonPost { path, body: request }
}

} // verus!
