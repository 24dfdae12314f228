use internet2::{presentation, transport};
use microservices::rpc::client::outcome;
use microservices::rpc::server::reply_for;
use microservices::rpc::{
    Api, ClientError, EndpointId, ExtCode, Failure, FailureCode, Handler, Reply, Request,
    RpcClient, RpcServer, ServerError,
};
use std::fmt;

#[derive(Clone, Copy, PartialEq, Eq, Hash, Debug)]
enum Endpoint {
    Main,
    Admin,
}

impl fmt::Display for Endpoint {
    fn fmt(&self, f: &mut fmt::Formatter<'_>) -> fmt::Result {
        fmt::Debug::fmt(self, f)
    }
}

impl EndpointId for Endpoint {}

#[derive(Clone, PartialEq, Eq, Debug)]
enum Query {
    Add(u8, u8),
    Explode,
}

impl fmt::Display for Query {
    fn fmt(&self, f: &mut fmt::Formatter<'_>) -> fmt::Result {
        fmt::Debug::fmt(self, f)
    }
}

impl Request for Query {}

#[derive(Clone, PartialEq, Eq, Debug)]
enum Answer {
    Sum(u16),
    Failure(Failure<ExtCode>),
}

impl fmt::Display for Answer {
    fn fmt(&self, f: &mut fmt::Formatter<'_>) -> fmt::Result {
        fmt::Debug::fmt(self, f)
    }
}

impl Reply for Answer {}

impl From<Failure<ExtCode>> for Answer {
    fn from(failure: Failure<ExtCode>) -> Self {
        Answer::Failure(failure)
    }
}

struct Calc;

impl Api for Calc {
    type Request = Query;
    type Reply = Answer;
    type FailureCodeExt = ExtCode;

    fn failure(reply: Answer) -> Result<Failure<ExtCode>, Answer> {
        match reply {
            Answer::Failure(failure) => Ok(failure),
            other => Err(other),
        }
    }
}

#[derive(Debug)]
struct Boom;

impl From<Boom> for Failure<ExtCode> {
    fn from(_: Boom) -> Self {
        Failure { code: FailureCode::from_u16(0x5000), info: "boom".to_string() }
    }
}

struct Server {
    seen: Vec<(Endpoint, Query)>,
    errors: usize,
    fatal: bool,
}

impl Handler<Endpoint> for Server {
    type Api = Calc;
    type Error = Boom;

    fn handle(&mut self, endpoint: Endpoint, request: Query) -> Result<Answer, Boom> {
        self.seen.push((endpoint, request.clone()));
        match request {
            Query::Add(a, b) => Ok(Answer::Sum(a as u16 + b as u16)),
            Query::Explode => Err(Boom),
        }
    }

    fn handle_err(&mut self, error: ClientError) -> Result<(), ClientError> {
        self.errors += 1;
        if self.fatal {
            Err(error)
        } else {
            Ok(())
        }
    }
}

fn server(fatal: bool) -> RpcServer<Endpoint, Calc, Server> {
    RpcServer::with(
        vec![Endpoint::Main, Endpoint::Admin],
        Server { seen: vec![], errors: 0, fatal },
    )
}

#[test]
fn handler_reply_goes_out_as_it_is() {
    let mut s = server(false);
    assert_eq!(s.run(Endpoint::Main, Query::Add(200, 100)), Answer::Sum(300));
    assert_eq!(reply_for::<Calc, Boom>(Ok(Answer::Sum(1))), Answer::Sum(1));
}

#[test]
fn handler_error_goes_out_as_a_failure_reply() {
    let mut s = server(false);
    let reply = s.run(Endpoint::Admin, Query::Explode);
    assert_eq!(
        reply,
        Answer::Failure(Failure { code: FailureCode::Runtime, info: "boom".to_string() })
    );
    assert_eq!(
        reply_for::<Calc, Boom>(Err(Boom)),
        Answer::Failure(Failure { code: FailureCode::Runtime, info: "boom".to_string() })
    );
}

#[test]
fn client_sees_the_failure_of_the_server() {
    let mut s = server(false);
    let reply = s.run(Endpoint::Main, Query::Explode);
    let seen = RpcClient::<Endpoint, Calc>::request(Ok(reply));
    match seen {
        Err(ServerError::ServerFailure(failure)) => {
            assert_eq!(failure.code, FailureCode::Runtime);
            assert_eq!(failure.info, "boom");
            assert_eq!(failure.to_string(), "server failure #0x5000 boom");
        }
        other => panic!("unexpected outcome {:?}", other),
    }
}

#[test]
fn client_sees_an_ordinary_reply() {
    let seen = RpcClient::<Endpoint, Calc>::request(Ok(Answer::Sum(7)));
    assert!(matches!(seen, Ok(Answer::Sum(7))));
}

#[test]
fn every_request_gets_exactly_one_reply() {
    let mut s = server(false);
    let requests = [Query::Add(1, 2), Query::Explode, Query::Add(3, 4), Query::Explode];
    let mut replies = vec![];
    for request in requests.iter() {
        replies.push(s.run(Endpoint::Main, request.clone()));
    }
    assert_eq!(replies.len(), requests.len());
    assert_eq!(replies[0], Answer::Sum(3));
    assert!(matches!(replies[1], Answer::Failure(_)));
    assert_eq!(replies[2], Answer::Sum(7));
    assert!(matches!(replies[3], Answer::Failure(_)));
}

#[test]
fn client_errors_in_reading_the_reply() {
    let seen = RpcClient::<Endpoint, Calc>::request(Err(presentation::Error::NoData));
    assert!(matches!(seen, Err(ServerError::Presentation(presentation::Error::NoData))));
    let wrapped = presentation::Error::Transport(transport::Error::TimedOut);
    let seen = RpcClient::<Endpoint, Calc>::request(Err(wrapped));
    assert!(matches!(seen, Err(ServerError::Transport(transport::Error::TimedOut))));
}

#[test]
fn outcome_for_each_kind_of_result() {
    let failure = Failure { code: FailureCode::Other(ExtCode(3)), info: "no".to_string() };
    let r = outcome::<u8, ExtCode>(Ok(Ok(failure.clone())));
    assert!(matches!(r, Err(ServerError::ServerFailure(f)) if f == failure));
    let r = outcome::<u8, ExtCode>(Ok(Err(5)));
    assert!(matches!(r, Ok(5)));
    let r = outcome::<u8, ExtCode>(Err(presentation::Error::InvalidValue));
    assert!(matches!(r, Err(ServerError::Presentation(presentation::Error::InvalidValue))));
}

#[test]
fn client_finds_the_session_of_an_endpoint() {
    let client: RpcClient<Endpoint, Calc> = RpcClient::with(vec![Endpoint::Admin, Endpoint::Main]);
    assert!(matches!(client.session(Endpoint::Admin), Ok(0)));
    assert!(matches!(client.session(Endpoint::Main), Ok(1)));
    let client: RpcClient<Endpoint, Calc> = RpcClient::with(vec![Endpoint::Admin]);
    assert!(matches!(
        client.session(Endpoint::Main),
        Err(ServerError::UnknownEndpoint(id)) if id == "Main"
    ));
    let client: RpcClient<Endpoint, Calc> = RpcClient::with(vec![]);
    assert!(matches!(client.session(Endpoint::Admin), Err(ServerError::UnknownEndpoint(_))));
}

#[test]
fn server_polls_its_endpoints_in_order() {
    let s = server(false);
    assert_eq!(s.poll(&[0, 0]), vec![]);
    assert_eq!(s.poll(&[1, 0]), vec![Endpoint::Main]);
    assert_eq!(s.poll(&[0, 4]), vec![Endpoint::Admin]);
    assert_eq!(s.poll(&[5, 1]), vec![Endpoint::Main, Endpoint::Admin]);
}

#[test]
fn connection_errors_go_to_the_handler_which_decides() {
    let mut s = server(false);
    assert!(s.recover(ClientError::UnexpectedRequest).is_ok());
    assert!(s.recover(ClientError::Transport(transport::Error::TimedOut)).is_ok());
    let mut s = server(true);
    assert!(matches!(
        s.recover(ClientError::UnexpectedRequest),
        Err(ClientError::UnexpectedRequest)
    ));
}

#[test]
fn an_endpoint_named_twice_stands_once() {
    let client: RpcClient<Endpoint, Calc> =
        RpcClient::with(vec![Endpoint::Main, Endpoint::Admin, Endpoint::Main]);
    assert!(matches!(client.session(Endpoint::Main), Ok(0)));
    assert!(matches!(client.session(Endpoint::Admin), Ok(1)));
    let s: RpcServer<Endpoint, Calc, Server> = RpcServer::with(
        vec![Endpoint::Admin, Endpoint::Admin, Endpoint::Main],
        Server { seen: vec![], errors: 0, fatal: false },
    );
    assert_eq!(s.poll(&[1, 1]), vec![Endpoint::Admin, Endpoint::Main]);
    assert_eq!(s.poll(&[1, 1, 1]), vec![Endpoint::Admin, Endpoint::Main]);
}
