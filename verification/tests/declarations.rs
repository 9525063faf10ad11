use rabbitmq::config::{Config, Connection, Login};
use rabbitmq::error::{Error, NulError};
use rabbitmq::producer::basic::BasicPublish;
use rabbitmq::types::connection::{socket_hostname, socket_opened, LoginRequest};
use rabbitmq::types::exchange::{Exchange, ExchangeDeclare, ExchangeType};
use rabbitmq::types::queue::{purged, Queue, QueueDeclare};

#[test]
fn exchange_types_have_c_names() {
    assert_eq!(ExchangeType::Fanout.to_cstr_bytes(), b"fanout\0".to_vec());
    assert_eq!(ExchangeType::Direct.to_cstr_bytes(), b"direct\0".to_vec());
    assert_eq!(ExchangeType::Topic.to_cstr_bytes(), b"topic\0".to_vec());
    assert_eq!(ExchangeType::Headers.to_cstr_bytes(), b"headers\0".to_vec());
}

#[test]
fn the_default_exchange_is_unnamed_and_direct() {
    let e = Exchange::default();
    assert_eq!(e.name, "");
    assert_eq!(e.exchange_type, ExchangeType::Direct);
    assert!(!e.passive && !e.durable && !e.auto_delete && !e.internal);
}

#[test]
fn declaring_an_exchange() {
    let d = ExchangeDeclare::new("logs".to_owned(), ExchangeType::Topic, false, true, false, true)
        .unwrap();
    assert_eq!(d.name_c, b"logs\0".to_vec());
    assert_eq!(d.type_c, b"topic\0".to_vec());
    let e = d.declared(1).unwrap();
    assert_eq!(e.name, "logs");
    assert_eq!(e.exchange_type, ExchangeType::Topic);
    assert!(!e.passive && e.durable && !e.auto_delete && e.internal);
    let d = ExchangeDeclare::new("x".to_owned(), ExchangeType::Fanout, false, false, false, false)
        .unwrap();
    assert!(matches!(d.declared(3), Err(Error::Reply)));
    let r = ExchangeDeclare::new("l\0".to_owned(), ExchangeType::Fanout, false, false, false, false);
    assert!(matches!(r, Err(Error::Cstring(NulError { position: 1, .. }))));
}

#[test]
fn declaring_a_queue() {
    let d = QueueDeclare::new("rpc", false, false, true, false).unwrap();
    assert_eq!(d.name_c, b"rpc\0".to_vec());
    let q = d.declared(1, false).unwrap();
    assert_eq!(q, Queue { passive: false, durable: false, exclusive: true, auto_delete: false });
    assert_eq!(d.declared(2, false), Err(Error::Reply));
    assert_eq!(d.declared(1, true), Err(Error::Reply));
    assert!(matches!(QueueDeclare::new("\0", false, false, false, false), Err(Error::Cstring(_))));
}

#[test]
fn purging_gives_the_count() {
    assert_eq!(purged(Some(12)), Ok(12));
    assert_eq!(purged(None), Err(Error::Reply));
}

#[test]
fn opening_a_connection() {
    assert_eq!(socket_hostname(false, "localhost"), Ok(b"localhost\0".to_vec()));
    assert_eq!(socket_hostname(true, "localhost"), Err(Error::TCPSocket));
    assert_eq!(socket_hostname(true, "l\0"), Err(Error::TCPSocket));
    assert!(matches!(socket_hostname(false, "l\0"), Err(Error::Cstring(_))));
    assert_eq!(socket_opened(0, false), Ok(()));
    assert_eq!(socket_opened(-9, true), Err(Error::Status(-9)));
    assert_eq!(socket_opened(0, true), Err(Error::TCPSocket));
}

#[test]
fn logging_in() {
    let l = LoginRequest::new("/", 0, 131072, 0, "guest", "guest").unwrap();
    assert_eq!(l.vhost, b"/\0".to_vec());
    assert_eq!(l.login, b"guest\0".to_vec());
    assert_eq!(l.password, b"guest\0".to_vec());
    assert_eq!((l.channel_max, l.frame_max, l.heartbeat), (0, 131072, 0));
    let e = LoginRequest::new("/", 0, 0, 0, "gu\0est", "pa\0ss").err().unwrap();
    assert_eq!(e, Error::Cstring(NulError { position: 2, bytes: b"gu\0est".to_vec() }));
}

#[test]
fn publishing_text() {
    let p = BasicPublish::new("amq.direct", "test", true, false, "Hello World").unwrap();
    assert_eq!(p.exchange, b"amq.direct\0".to_vec());
    assert_eq!(p.routing_key, b"test\0".to_vec());
    assert_eq!(p.body, b"Hello World\0".to_vec());
    assert_eq!((p.mandatory, p.immediate), (1, 0));
    let e = BasicPublish::new("amq.direct", "te\0st", false, false, "\0").err().unwrap();
    assert_eq!(e, Error::Cstring(NulError { position: 2, bytes: b"te\0st".to_vec() }));
}

#[test]
fn config_holds_connection_and_login() {
    let c = Config {
        connection: Connection { hostname: "localhost".to_owned(), port: 5672 },
        login: Login {
            vhost: "/".to_owned(),
            channel_max: 0,
            frame_max: 131072,
            heartbeat: 0,
            login: "guest".to_owned(),
            password: "guest".to_owned(),
        },
    };
    assert_eq!(c.connection.port, 5672);
    assert_eq!(c.login.frame_max, 131072);
}
