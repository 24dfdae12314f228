use internet2::addr::ServiceAddr;
use internet2::{transport, ZmqSocketType};
use microservices::esb::controller::{poll_item, ready_entries, same_bytes};
use microservices::esb::controller::{route_frame, SessionPlan};
use microservices::esb::{
    BusAction, BusConfig, BusError, BusId, Controller, EndpointList, Handler, RoutedFrame,
    ServiceName, SessionState,
};
use microservices::rpc::Request;
use std::fmt;

#[derive(Clone, Copy, PartialEq, Eq, Hash, Debug)]
enum Bus {
    Ctl,
    Msg,
    Rpc,
}

impl fmt::Display for Bus {
    fn fmt(&self, f: &mut fmt::Formatter<'_>) -> fmt::Result {
        fmt::Debug::fmt(self, f)
    }
}

impl BusId for Bus {
    type Address = ServiceName;
}

#[derive(Clone, PartialEq, Eq, Debug)]
struct Ping(u8);

impl fmt::Display for Ping {
    fn fmt(&self, f: &mut fmt::Formatter<'_>) -> fmt::Result {
        fmt::Debug::fmt(self, f)
    }
}

impl Request for Ping {}

#[derive(Debug, PartialEq, Eq)]
struct Fatal(String);

struct Service {
    name: ServiceName,
    handled: Vec<(Bus, ServiceName, Ping)>,
    errors: Vec<String>,
    ready: u32,
    echo: bool,
    fatal: bool,
}

impl Service {
    fn named(name: &str) -> Self {
        Service {
            name: ServiceName::from_str(name),
            handled: vec![],
            errors: vec![],
            ready: 0,
            echo: false,
            fatal: false,
        }
    }
}

impl Handler<Bus> for Service {
    type Request = Ping;
    type Error = Fatal;

    fn identity(&self) -> ServiceName {
        self.name
    }

    fn bus_error(err: Fatal) -> BusError<ServiceName> {
        BusError::ServiceError(err.0)
    }

    fn on_ready(&mut self, _endpoints: &mut EndpointList<Bus>) -> Result<(), Fatal> {
        self.ready += 1;
        Ok(())
    }

    fn handle(
        &mut self,
        endpoints: &mut EndpointList<Bus>,
        bus_id: Bus,
        source: ServiceName,
        request: Ping,
    ) -> Result<(), Fatal> {
        if request.0 == 0xff {
            return Err(Fatal("bad ping".to_string()));
        }
        if self.echo {
            endpoints
                .send_to(bus_id, self.name, source, vec![request.0])
                .map_err(|_| Fatal("echo".to_string()))?;
        }
        self.handled.push((bus_id, source, request));
        Ok(())
    }

    fn handle_err(
        &mut self,
        _endpoints: &mut EndpointList<Bus>,
        error: BusError<ServiceName>,
    ) -> Result<(), Fatal> {
        self.errors.push(format!("{:?}", error));
        if self.fatal {
            Err(Fatal("giving up".to_string()))
        } else {
            Ok(())
        }
    }
}

fn name(s: &str) -> ServiceName {
    ServiceName::from_str(s)
}

fn frame(hop: &str, src: &str, dst: &str, msg: &[u8]) -> RoutedFrame {
    RoutedFrame {
        hop: name(hop).to_bytes(),
        src: name(src).to_bytes(),
        dst: name(dst).to_bytes(),
        msg: msg.to_vec(),
    }
}

fn controller(identity: &str) -> Controller<Bus, Ping, Service> {
    Controller::with(Service::named(identity))
}

fn router(s: &str) -> Option<Vec<u8>> {
    Some(name(s).to_bytes())
}

#[test]
fn frame_on_a_bus_without_router_goes_to_its_destination() {
    let mut c = controller("a");
    c.add_service_bus(Bus::Ctl, None, Ok(())).unwrap();
    c.send_to(Bus::Ctl, name("c"), vec![1, 2, 3]).unwrap();
    assert_eq!(
        c.take_actions(),
        vec![(Bus::Ctl, BusAction::Send(frame("c", "a", "c", &[1, 2, 3])))]
    );
}

#[test]
fn frame_of_the_router_itself_goes_to_its_destination() {
    let list: EndpointList<Bus> = EndpointList::new();
    assert!(list.buses().is_empty());
    let mut c = controller("b");
    c.add_service_bus(Bus::Ctl, router("b"), Ok(())).unwrap();
    c.send_to(Bus::Ctl, name("c"), vec![9]).unwrap();
    assert_eq!(
        c.take_actions(),
        vec![(Bus::Ctl, BusAction::Send(frame("c", "b", "c", &[9])))]
    );
}

#[test]
fn frame_of_another_service_goes_to_the_router() {
    let mut c = controller("a");
    c.add_service_bus(Bus::Ctl, router("b"), Ok(())).unwrap();
    c.send_to(Bus::Ctl, name("c"), vec![0xca, 0xfe]).unwrap();
    let actions = c.take_actions();
    assert_eq!(actions.len(), 1);
    match &actions[0] {
        (Bus::Ctl, BusAction::Send(f)) => {
            assert_eq!(f.src, name("a").to_bytes());
            assert_eq!(f.hop, name("b").to_bytes());
            assert_eq!(f.dst, name("c").to_bytes());
            assert_eq!(f.msg, vec![0xca, 0xfe]);
        }
        other => panic!("unexpected action {:?}", other),
    }
}

#[test]
fn empty_table_knows_no_bus() {
    let mut list: EndpointList<Bus> = EndpointList::new();
    assert!(matches!(
        list.send_to(Bus::Msg, name("x"), name("y"), vec![]),
        Err(BusError::UnknownBusId(id)) if id == "Msg"
    ));
    assert!(matches!(
        list.send_frame(Bus::Ctl, vec![1], vec![2], vec![3]),
        Err(BusError::UnknownBusId(id)) if id == "Ctl"
    ));
    assert!(list.take_actions().is_empty());
}

#[test]
fn route_frame_follows_the_routing_table() {
    let f = route_frame(&None, vec![1], vec![2], vec![9, 9]);
    assert_eq!(f, RoutedFrame { hop: vec![2], src: vec![1], dst: vec![2], msg: vec![9, 9] });
    let f = route_frame(&Some(vec![1]), vec![1], vec![2], vec![]);
    assert_eq!(f, RoutedFrame { hop: vec![2], src: vec![1], dst: vec![2], msg: vec![] });
    let f = route_frame(&Some(vec![3]), vec![1], vec![2], vec![7]);
    assert_eq!(f, RoutedFrame { hop: vec![3], src: vec![1], dst: vec![2], msg: vec![7] });
    let f = route_frame(&Some(vec![2]), vec![1], vec![2], vec![]);
    assert_eq!(f.hop, vec![2]);
    let f = route_frame(&Some(vec![1, 0]), vec![1], vec![2], vec![]);
    assert_eq!(f.hop, vec![1, 0]);
}

#[test]
fn sending_on_an_unknown_bus_fails() {
    let mut c = controller("a");
    c.add_service_bus(Bus::Ctl, None, Ok(())).unwrap();
    let r = c.send_to(Bus::Rpc, name("c"), vec![1]);
    assert!(matches!(r, Err(BusError::UnknownBusId(id)) if id == "Rpc"));
    assert!(c.take_actions().is_empty());
}

struct Renaming;

impl Handler<Bus> for Renaming {
    type Request = Ping;
    type Error = Fatal;

    fn identity(&self) -> ServiceName {
        name("old")
    }

    fn bus_error(err: Fatal) -> BusError<ServiceName> {
        BusError::ServiceError(err.0)
    }

    fn on_ready(&mut self, endpoints: &mut EndpointList<Bus>) -> Result<(), Fatal> {
        endpoints.set_identity(Bus::Ctl, name("new")).map_err(|_| Fatal("ctl".to_string()))?;
        match endpoints.set_identity(Bus::Rpc, name("new")) {
            Err(BusError::UnknownBusId(id)) if id == "Rpc" => Ok(()),
            _ => Err(Fatal("rpc".to_string())),
        }
    }

    fn handle(
        &mut self,
        _endpoints: &mut EndpointList<Bus>,
        _bus_id: Bus,
        _source: ServiceName,
        _request: Ping,
    ) -> Result<(), Fatal> {
        Ok(())
    }

    fn handle_err(
        &mut self,
        _endpoints: &mut EndpointList<Bus>,
        _error: BusError<ServiceName>,
    ) -> Result<(), Fatal> {
        Ok(())
    }
}

#[test]
fn set_identity_on_known_and_unknown_bus() {
    let mut c: Controller<Bus, Ping, Renaming> = Controller::with(Renaming);
    c.add_service_bus(Bus::Ctl, None, Ok(())).unwrap();
    c.on_ready().unwrap();
    assert_eq!(
        c.take_actions(),
        vec![(Bus::Ctl, BusAction::SetIdentity(name("new").to_bytes()))]
    );
}

#[test]
fn failed_session_leaves_the_table_as_it_was() {
    let mut c = controller("a");
    c.add_service_bus(Bus::Ctl, None, Ok(())).unwrap();
    let r = c.add_service_bus(Bus::Msg, None, Err(transport::Error::ServiceOffline));
    assert!(matches!(r, Err(BusError::Transport(transport::Error::ServiceOffline))));
    assert_eq!(c.poll_set(), vec![Bus::Ctl]);
}

#[test]
fn buses_are_polled_in_the_order_they_were_added() {
    let mut c = controller("a");
    c.add_service_bus(Bus::Msg, None, Ok(())).unwrap();
    c.add_service_bus(Bus::Ctl, None, Ok(())).unwrap();
    c.add_service_bus(Bus::Rpc, None, Ok(())).unwrap();
    assert_eq!(c.poll_set(), vec![Bus::Msg, Bus::Ctl, Bus::Rpc]);
    c.add_service_bus(Bus::Ctl, router("r"), Ok(())).unwrap();
    assert_eq!(c.poll_set(), vec![Bus::Msg, Bus::Ctl, Bus::Rpc]);
    c.send_to(Bus::Ctl, name("z"), vec![]).unwrap();
    assert_eq!(
        c.take_actions(),
        vec![(Bus::Ctl, BusAction::Send(frame("r", "a", "z", &[])))]
    );
}

#[test]
fn poll_returns_ready_buses_in_poll_set_order() {
    let mut c = controller("a");
    c.add_service_bus(Bus::Msg, None, Ok(())).unwrap();
    c.add_service_bus(Bus::Ctl, None, Ok(())).unwrap();
    c.add_service_bus(Bus::Rpc, None, Ok(())).unwrap();
    assert_eq!(c.poll(&[0, 0, 0]), vec![]);
    assert_eq!(c.poll(&[1, 0, 4]), vec![Bus::Msg, Bus::Rpc]);
    assert_eq!(c.poll(&[0, 5, 0]), vec![Bus::Ctl]);
    assert_eq!(c.poll(&[1, 1, 1]), vec![Bus::Msg, Bus::Ctl, Bus::Rpc]);
    assert_eq!(c.poll(&[1]), vec![Bus::Msg]);
    assert_eq!(c.poll(&[0, 1, 0, 1]), vec![Bus::Ctl]);
    assert_eq!(ready_entries(&[7u8, 8, 9], &[0, -1, 2]), vec![8, 9]);
}

#[test]
fn request_for_this_service_is_handled() {
    let mut c = controller("b");
    c.add_service_bus(Bus::Ctl, None, Ok(())).unwrap();
    c.run(Bus::Ctl, frame("b", "a", "b", &[1]), Ping(1)).unwrap();
    assert_eq!(c.handler().handled, vec![(Bus::Ctl, name("a"), Ping(1))]);
    assert!(c.take_actions().is_empty());
}

#[test]
fn request_for_another_service_is_relayed() {
    let mut c = controller("b");
    let config = BusConfig::with_addr(
        ServiceAddr::Inproc("ctl".to_string()),
        ZmqSocketType::RouterBind,
        Some(name("b")),
    );
    let plan = c.plan_service_bus(config);
    assert_eq!(plan.router, None);
    c.add_service_bus(Bus::Ctl, plan.router, Ok(())).unwrap();
    c.run(Bus::Ctl, frame("b", "a", "c", &[4, 2]), Ping(42)).unwrap();
    assert!(c.handler().handled.is_empty());
    assert_eq!(
        c.take_actions(),
        vec![(Bus::Ctl, BusAction::Send(frame("c", "a", "c", &[4, 2])))]
    );
}

#[test]
fn relay_through_a_further_router() {
    let mut c = controller("b");
    c.add_service_bus(Bus::Ctl, router("r"), Ok(())).unwrap();
    c.run(Bus::Ctl, frame("b", "a", "c", &[7]), Ping(7)).unwrap();
    assert_eq!(
        c.take_actions(),
        vec![(Bus::Ctl, BusAction::Send(frame("r", "a", "c", &[7])))]
    );
}

#[test]
fn handler_may_answer_over_the_bus() {
    let mut service = Service::named("b");
    service.echo = true;
    let mut c: Controller<Bus, Ping, Service> = Controller::with(service);
    c.add_service_bus(Bus::Ctl, None, Ok(())).unwrap();
    c.run(Bus::Ctl, frame("b", "a", "b", &[5]), Ping(5)).unwrap();
    assert_eq!(
        c.take_actions(),
        vec![(Bus::Ctl, BusAction::Send(frame("a", "b", "a", &[5])))]
    );
    assert!(c.take_actions().is_empty());
}

#[test]
fn handler_error_becomes_a_bus_error() {
    let mut c = controller("b");
    c.add_service_bus(Bus::Ctl, None, Ok(())).unwrap();
    let r = c.run(Bus::Ctl, frame("b", "a", "b", &[]), Ping(0xff));
    assert!(matches!(r, Err(BusError::ServiceError(text)) if text == "bad ping"));
}

#[test]
fn errors_go_to_the_handler_which_decides() {
    let mut c = controller("b");
    c.add_service_bus(Bus::Ctl, None, Ok(())).unwrap();
    assert!(c.try_run(Bus::Ctl, frame("b", "a", "b", &[]), Ping(0xff)).is_ok());
    assert_eq!(c.handler().errors.len(), 1);
    assert!(c.recover(BusError::Transport(transport::Error::TimedOut)).is_ok());
    assert_eq!(c.handler().errors.len(), 2);
    assert_eq!(c.poll_set(), vec![Bus::Ctl]);

    let mut service = Service::named("b");
    service.fatal = true;
    let mut c: Controller<Bus, Ping, Service> = Controller::with(service);
    let r = c.try_run(Bus::Rpc, frame("b", "a", "c", &[]), Ping(1));
    assert!(matches!(r, Err(BusError::ServiceError(text)) if text == "giving up"));
    assert!(c.handler().errors[0].contains("UnknownBusId"));
}

#[test]
fn on_ready_reaches_the_handler_once() {
    let mut c = controller("b");
    assert_eq!(c.handler().ready, 0);
    c.on_ready().unwrap();
    assert_eq!(c.handler().ready, 1);
    assert!(c.endpoints().buses().is_empty());
}

#[test]
fn poll_item_names_the_source_of_the_frame() {
    let item = poll_item::<Bus, Ping>(Bus::Msg, frame("b", "a", "b", &[3]), Ping(3));
    assert_eq!(item.bus_id, Bus::Msg);
    assert_eq!(item.source, name("a"));
    assert_eq!(item.request, Ping(3));
}

#[test]
fn byte_strings_compare_by_content() {
    assert!(same_bytes(&[], &[]));
    assert!(same_bytes(&[1, 2], &[1, 2]));
    assert!(!same_bytes(&[1, 2], &[1, 3]));
    assert!(!same_bytes(&[1, 2], &[1]));
    assert!(!same_bytes(&[], &[0]));
}

#[test]
fn plan_for_a_locator_connects_under_the_identity() {
    let c = controller("a");
    let config = BusConfig::with_addr(
        ServiceAddr::Inproc("ctl".to_string()),
        ZmqSocketType::RouterConnect,
        Some(name("router")),
    );
    let plan = c.plan_service_bus(config);
    assert_eq!(plan.api_type, ZmqSocketType::RouterConnect);
    assert!(matches!(
        &plan.carrier,
        internet2::zeromq::Carrier::Locator(ServiceAddr::Inproc(s)) if s == "ctl"
    ));
    assert_eq!(plan.identity, Some(name("a").to_bytes()));
    assert!(plan.router_mandatory);
    assert_eq!(plan.subscribe, None);
    assert_eq!(plan.router, router("router"));
}

#[test]
fn plan_drops_a_router_that_is_the_service_itself() {
    let c = controller("router");
    let config = BusConfig::with_addr(
        ServiceAddr::Inproc("ctl".to_string()),
        ZmqSocketType::RouterBind,
        Some(name("router")),
    );
    assert_eq!(c.plan_service_bus(config).router, None);
    let config: BusConfig<ServiceName> =
        BusConfig::with_addr(ServiceAddr::Inproc("ctl".to_string()), ZmqSocketType::Req, None);
    assert_eq!(config.into_plan(name("x").to_bytes()).router, None);
}

#[test]
fn plan_for_a_queued_bus_lets_messages_wait() {
    let mut config: BusConfig<ServiceName> =
        BusConfig::with_addr(ServiceAddr::Inproc("ctl".to_string()), ZmqSocketType::Push, None);
    assert!(!config.queued);
    config.queued = true;
    assert!(!config.into_plan(name("a").to_bytes()).router_mandatory);
}

#[test]
fn plan_for_a_subscriber_subscribes_to_the_topic() {
    let config: BusConfig<ServiceName> = BusConfig::with_subscription(
        ServiceAddr::Inproc("events".to_string()),
        ZmqSocketType::Sub,
        None,
        "alp".to_string(),
    );
    assert_eq!(config.topic, Some("alp".to_string()));
    assert_eq!(config.into_plan(name("a").to_bytes()).subscribe, Some(b"alp".to_vec()));

    let config: BusConfig<ServiceName> =
        BusConfig::with_addr(ServiceAddr::Inproc("events".to_string()), ZmqSocketType::Sub, None);
    assert_eq!(config.into_plan(name("a").to_bytes()).subscribe, Some(vec![]));

    let config: BusConfig<ServiceName> = BusConfig::with_subscription(
        ServiceAddr::Inproc("events".to_string()),
        ZmqSocketType::Pub,
        None,
        "alpha".to_string(),
    );
    assert_eq!(config.into_plan(name("a").to_bytes()).subscribe, None);
}

#[test]
fn plan_for_a_ready_socket_sets_no_identity() {
    let context = zmq2::Context::new();
    let socket = context.socket(zmq2::ROUTER).unwrap();
    let config: BusConfig<ServiceName> =
        BusConfig::with_socket(socket, ZmqSocketType::RouterBind, None);
    assert!(!config.queued);
    assert_eq!(config.topic, None);
    let plan = config.into_plan(name("a").to_bytes());
    assert_eq!(plan.identity, None);
    assert!(matches!(plan.carrier, internet2::zeromq::Carrier::Socket(_)));
    assert!(plan.router_mandatory);
}

#[test]
fn plan_over_bytes_is_the_same_decision() {
    let carrier = internet2::zeromq::Carrier::Locator(ServiceAddr::Ipc("/tmp/bus".to_string()));
    let plan = SessionPlan::new(
        ZmqSocketType::Sub,
        carrier,
        Some(vec![1, 2]),
        true,
        Some("żółw".to_string()),
        vec![1, 2, 3],
    );
    assert_eq!(plan.identity, Some(vec![1, 2, 3]));
    assert_eq!(plan.router, Some(vec![1, 2]));
    assert!(!plan.router_mandatory);
    assert_eq!(plan.subscribe, Some("żółw".as_bytes().to_vec()));
    for role in [
        ZmqSocketType::Pull,
        ZmqSocketType::Push,
        ZmqSocketType::Req,
        ZmqSocketType::Rep,
        ZmqSocketType::Pub,
        ZmqSocketType::RouterBind,
        ZmqSocketType::RouterConnect,
    ] {
        let carrier = internet2::zeromq::Carrier::Locator(ServiceAddr::Ipc("x".to_string()));
        let plan = SessionPlan::new(role, carrier, Some(vec![7]), false, Some("t".into()), vec![7]);
        assert_eq!(plan.subscribe, None);
        assert_eq!(plan.router, None);
        assert!(plan.router_mandatory);
    }
}

#[test]
fn session_becomes_active_with_its_first_message() {
    let mut c = controller("a");
    assert_eq!(c.endpoints().state(Bus::Ctl), None);
    assert!(!c.touch(Bus::Ctl));
    c.add_service_bus(Bus::Ctl, None, Ok(())).unwrap();
    c.add_service_bus(Bus::Msg, router("r"), Ok(())).unwrap();
    assert_eq!(c.endpoints().state(Bus::Ctl), Some(SessionState::Connected));
    assert_eq!(c.endpoints().state(Bus::Msg), Some(SessionState::Connected));
    assert!(c.touch(Bus::Msg));
    assert_eq!(c.endpoints().state(Bus::Ctl), Some(SessionState::Connected));
    assert_eq!(c.endpoints().state(Bus::Msg), Some(SessionState::Active));
    assert!(c.touch(Bus::Msg));
    assert_eq!(c.endpoints().state(Bus::Msg), Some(SessionState::Active));
    assert_eq!(c.poll_set(), vec![Bus::Ctl, Bus::Msg]);
    c.send_to(Bus::Msg, name("z"), vec![1]).unwrap();
    assert_eq!(
        c.take_actions(),
        vec![(Bus::Msg, BusAction::Send(frame("r", "a", "z", &[1])))]
    );
}

#[test]
fn errors_leave_the_session_where_it_is() {
    let mut c = controller("a");
    c.add_service_bus(Bus::Ctl, None, Ok(())).unwrap();
    c.touch(Bus::Ctl);
    c.recover(BusError::Transport(transport::Error::TimedOut)).unwrap();
    let r = c.add_service_bus(Bus::Msg, None, Err(transport::Error::ServiceOffline));
    assert!(r.is_err());
    assert_eq!(c.endpoints().state(Bus::Ctl), Some(SessionState::Active));
    assert_eq!(c.endpoints().state(Bus::Msg), None);
    assert_eq!(c.poll_set(), vec![Bus::Ctl]);
}

#[test]
fn a_frame_that_went_out_makes_the_session_active() {
    let mut c = controller("a");
    c.add_service_bus(Bus::Ctl, None, Ok(())).unwrap();
    c.send_to(Bus::Ctl, name("z"), vec![1]).unwrap();
    let (bus, action) = c.take_actions().pop().unwrap();
    let sent = match action {
        BusAction::Send(f) => f,
        other => panic!("unexpected action {:?}", other),
    };
    assert!(c.sent(bus, sent, Ok(())).is_ok());
    assert_eq!(c.endpoints().state(Bus::Ctl), Some(SessionState::Active));
}

#[test]
fn a_frame_that_did_not_go_out_is_a_send_error() {
    let mut c = controller("a");
    c.add_service_bus(Bus::Ctl, None, Ok(())).unwrap();
    let r = c.sent(Bus::Ctl, frame("z", "a", "z", &[1]), Err(transport::Error::ServiceOffline));
    match r {
        Err(BusError::Send(from, to, transport::Error::ServiceOffline)) => {
            assert_eq!(from, name("a"));
            assert_eq!(to, name("z"));
        }
        other => panic!("unexpected result {:?}", other),
    }
    assert_eq!(c.endpoints().state(Bus::Ctl), Some(SessionState::Connected));
    assert_eq!(c.poll_set(), vec![Bus::Ctl]);
    assert!(c.take_actions().is_empty());
}

#[test]
fn addresses_are_read_from_the_bytes_of_the_frame() {
    let mut c = controller("b");
    c.add_service_bus(Bus::Ctl, None, Ok(())).unwrap();
    let short = RoutedFrame {
        hop: b"b".to_vec(),
        src: b"a".to_vec(),
        dst: b"b".to_vec(),
        msg: vec![1],
    };
    c.run(Bus::Ctl, short, Ping(1)).unwrap();
    assert_eq!(c.handler().handled, vec![(Bus::Ctl, name("a"), Ping(1))]);
    let other = RoutedFrame {
        hop: b"b".to_vec(),
        src: b"a".to_vec(),
        dst: b"c".to_vec(),
        msg: vec![2],
    };
    c.run(Bus::Ctl, other, Ping(2)).unwrap();
    assert_eq!(
        c.take_actions(),
        vec![(Bus::Ctl, BusAction::Send(frame("c", "a", "c", &[2])))]
    );
}
