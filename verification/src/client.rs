//! The client: the requests for socket tokens and the endpoints made of the
//! replies.
use crate::clock::{get_time, is_clock_time};
use crate::error::APIError;
use crate::text::{decimal, decimal_string};
use crate::topic::WSType;
use crate::websocket::{KucoinWebsocket, SocketState};
use vstd::prelude::*;

verus! {

/// A client of the service at `prefix`.
pub struct Kucoin {
    pub prefix: String,
}

/// A signed POST request without a body.
#[derive(Debug)]
pub struct BulletRequest {
    /// The path to sign.
    pub endpoint: String,
    /// Where to post.
    pub url: String,
}

/// A server that takes socket connections.
#[derive(Debug)]
pub struct InstanceServer {
    pub endpoint: String,
}

/// The servers and the token to connect with.
#[derive(Debug)]
pub struct InstanceServers {
    pub token: String,
    pub instance_servers: Vec<InstanceServer>,
}

/// The reply to a request.
#[derive(Debug)]
pub struct APIDatum<T> {
    pub data: Option<T>,
    pub msg: Option<String>,
}

/// A socket endpoint that waits for the reply to its token request.
#[derive(Debug)]
pub struct EndpointQuery {
    pub request: BulletRequest,
    pub timestamp: u128,
}

/// The path of the token service.
pub open spec fn bullet_path(ws_type: WSType) -> Seq<char> {
    match ws_type {
        WSType::Private => "/api/v1/bullet-private"@,
        WSType::Public => "/api/v1/bullet-public"@,
    }
}

impl BulletRequest {
    /// The request goes to this path under the prefix, and signs the path.
    pub open spec fn goes_to(self, prefix: Seq<char>, path: Seq<char>) -> bool {
        self.endpoint@ == path && self.url@ == prefix + path
    }
}

/// The URL to connect to.
pub open spec fn socket_url(endpoint: Seq<char>, token: Seq<char>, timestamp: nat) -> Seq<char> {
    endpoint + "?token="@ + token + "&[connectId="@ + decimal(timestamp)
        + "]?acceptUserMessage=\"true\""@
}

/// The URL to connect to after a reply, or the words of the error.
pub open spec fn endpoint_of(resp: APIDatum<InstanceServers>, timestamp: nat) -> Result<
    Seq<char>,
    Seq<char>,
> {
    match resp.data {
        None => Err(
            match resp.msg {
                Some(words) => words@,
                None => "no data or message"@,
            },
        ),
        Some(servers) => {
            let endpoint = servers.instance_servers[0].endpoint@;
            let token = servers.token@;
            if endpoint.len() == 0 || token.len() == 0 {
                Err("Missing endpoint/token"@)
            } else {
                Ok(socket_url(endpoint, token, timestamp))
            }
        },
    }
}

impl Kucoin {
    /// A set of sockets in which none is open yet.
    pub fn websocket(&self) -> (socket: KucoinWebsocket)
        ensures
            socket.wf(),
            socket@ == SocketState::empty(),
    {
        KucoinWebsocket::default()
    }

    fn bullet_request(&self, endpoint: &str) -> (request: BulletRequest)
        ensures
            request.goes_to(self.prefix@, endpoint@),
    {
        let mut url = self.prefix.clone();
        url.append(endpoint);
        BulletRequest { endpoint: String::from_str(endpoint), url }
    }

    /// The request for a private token.
    pub fn ws_bullet_private(&self) -> (request: BulletRequest)
        ensures
            request.goes_to(self.prefix@, bullet_path(WSType::Private)),
            request.endpoint@ == "/api/v1/bullet-private"@,
            request.url@ == self.prefix@ + "/api/v1/bullet-private"@,
    {
        self.bullet_request("/api/v1/bullet-private")
    }

    /// The request for a public token.
    pub fn ws_bullet_public(&self) -> (request: BulletRequest)
        ensures
            request.goes_to(self.prefix@, bullet_path(WSType::Public)),
            request.endpoint@ == "/api/v1/bullet-public"@,
            request.url@ == self.prefix@ + "/api/v1/bullet-public"@,
    {
        self.bullet_request("/api/v1/bullet-public")
    }

    /// Begins the search for a socket endpoint: the time is taken now, and the
    /// reply to the request goes to [`EndpointQuery::answer`].
    pub fn get_socket_endpoint(&self, ws_type: WSType) -> (query: EndpointQuery)
        ensures
            query.request.goes_to(self.prefix@, bullet_path(ws_type)),
            query.request.endpoint@ == (match ws_type {
                WSType::Private => "/api/v1/bullet-private"@,
                WSType::Public => "/api/v1/bullet-public"@,
            }),
            query.request.url@ == self.prefix@ + query.request.endpoint@,
            is_clock_time(query.timestamp),
    {
        let timestamp = get_time();
        let request = match ws_type {
            WSType::Private => self.ws_bullet_private(),
            WSType::Public => self.ws_bullet_public(),
        };
        EndpointQuery { request, timestamp }
    }
}

impl EndpointQuery {
    /// Makes the socket URL of the reply: the first server, its token and the
    /// time of the query. A reply without data is an error in its own words,
    /// and so is one whose endpoint or token is empty.
    pub fn answer(&self, resp: APIDatum<InstanceServers>) -> (url: Result<String, APIError>)
        requires
            resp.data is Some ==> resp.data->0.instance_servers.len() > 0,
        ensures
            match endpoint_of(resp, self.timestamp as nat) {
                Ok(text) => url is Ok && url->Ok_0@ == text,
                Err(words) => url is Err && url->Err_0.says(words),
            },
            match resp.data {
                Some(servers) => if servers.instance_servers[0].endpoint@.len() > 0
                    && servers.token@.len() > 0 {
                    &&& url is Ok
                    &&& url->Ok_0@ == servers.instance_servers[0].endpoint@ + "?token="@
                        + servers.token@ + "&[connectId="@ + decimal(self.timestamp as nat)
                        + "]?acceptUserMessage=\"true\""@
                } else {
                    url matches Err(APIError::Other(words)) && words@ == "Missing endpoint/token"@
                },
                None => url matches Err(APIError::Other(words)) && words@ == (match resp.msg {
                    Some(msg) => msg@,
                    None => "no data or message"@,
                }),
            },
    {
        match resp.data {
            None => match resp.msg {
                Some(words) => Err(APIError::Other(words)),
                None => Err(APIError::Other(String::from_str("no data or message"))),
            },
            Some(servers) => {
                let endpoint = &servers.instance_servers[0].endpoint;
                let token = &servers.token;
                if endpoint.as_str().is_empty() || token.as_str().is_empty() {
                    return Err(APIError::Other(String::from_str("Missing endpoint/token")));
                }
                let mut url = endpoint.clone();
                url.append("?token=");
                url.append(token.as_str());
                url.append("&[connectId=");
                url.append(decimal_string(self.timestamp).as_str());
                url.append("]?acceptUserMessage=\"true\"");
                Ok(url)
            },
        }
    }
}

} // verus!
