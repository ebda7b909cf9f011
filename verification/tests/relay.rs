use tcp_proxy::endpoint::Endpoint;
use tcp_proxy::forwarder::{Action, Connection, Event, ForwardError};
use tcp_proxy::listener::{Accept, Listener, LoopAction};
use std::sync::atomic::{AtomicBool, AtomicUsize, Ordering};
use std::sync::Arc;
use tokio::io::{duplex, split, AsyncReadExt, AsyncWriteExt, DuplexStream};
use tokio::runtime::{Builder, Runtime};
use tokio::task::{yield_now, JoinHandle};

const ECHO: Endpoint = Endpoint::V4 { octets: 0x7f00_0001, port: 9100 };

const STOPPED: Endpoint = Endpoint::V4 { octets: 0x7f00_0001, port: 9101 };

const SILENT: Endpoint = Endpoint::V4 { octets: 0x7f00_0001, port: 9102 };

const HANGS_UP: Endpoint = Endpoint::V4 { octets: 0x7f00_0001, port: 9103 };

const BUFFER: usize = 512;

fn runtime() -> Runtime {
    Builder::new_current_thread().build().unwrap()
}

/// The upstreams that can be dialled. The one at `SILENT` never reads; it
/// writes `pong` once `speak` is set.
#[derive(Clone, Default)]
struct Net {
    speak: Arc<AtomicBool>,
}

impl Net {
    fn dial(&self, target: Endpoint) -> Option<DuplexStream> {
        if target == STOPPED {
            return None;
        }
        let (near, mut far) = duplex(BUFFER);
        if target == ECHO {
            tokio::spawn(async move {
                let (mut reader, mut writer) = split(far);
                let _ = tokio::io::copy(&mut reader, &mut writer).await;
            });
        } else if target == SILENT {
            let speak = self.speak.clone();
            tokio::spawn(async move {
                while !speak.load(Ordering::SeqCst) {
                    yield_now().await;
                }
                far.write_all(b"pong").await.unwrap();
                std::future::pending::<()>().await;
                drop(far);
            });
        } else if target == HANGS_UP {
            drop(far);
        } else {
            return None;
        }
        Some(near)
    }
}

async fn serve(
    net: Net,
    mut inbound: DuplexStream,
    mut connection: Connection,
) -> Result<(), ForwardError> {
    let mut outbound: Option<DuplexStream> = None;
    let mut event = Event::Started;
    loop {
        event = match connection.step(event) {
            Some(Action::Connect { target }) => match net.dial(target) {
                Some(stream) => {
                    outbound = Some(stream);
                    Event::Connected
                }
                None => Event::ConnectFailed,
            },
            Some(Action::Relay) => {
                let upstream = outbound.as_mut().unwrap();
                match tokio::io::copy_bidirectional(&mut inbound, upstream).await {
                    Ok(_) => Event::StreamEnded,
                    Err(_) => Event::TransferFailed,
                }
            }
            Some(Action::Close { result }) => {
                assert!(connection.is_closed());
                return result;
            }
            None => panic!("the connection did not wait for {:?}", event),
        };
    }
}

fn connect_through(
    net: &Net,
    listener: &Listener,
    port: u16,
) -> (DuplexStream, JoinHandle<Result<(), ForwardError>>) {
    let (client, inbound) = duplex(BUFFER);
    let peer = Endpoint::V4 { octets: 0x7f00_0001, port };
    match listener.on_accept(Accept::Connection { peer }) {
        LoopAction::Spawn { connection, .. } => {
            (client, tokio::spawn(serve(net.clone(), inbound, connection)))
        }
        LoopAction::ReportFailure => panic!("an accepted connection was not spawned"),
    }
}

fn connect_to(
    listener: &Listener,
    port: u16,
) -> (DuplexStream, JoinHandle<Result<(), ForwardError>>) {
    connect_through(&Net::default(), listener, port)
}

async fn exchange(client: DuplexStream, payload: Vec<u8>) -> Vec<u8> {
    let (mut reader, mut writer) = split(client);
    let sending = tokio::spawn(async move {
        writer.write_all(&payload).await.unwrap();
        writer.shutdown().await.unwrap();
    });
    let mut received = Vec::new();
    reader.read_to_end(&mut received).await.unwrap();
    sending.await.unwrap();
    received
}

fn payload(seed: u8, length: usize) -> Vec<u8> {
    let mut bytes = Vec::with_capacity(length);
    let mut state: u32 = 0x9e37_79b9 ^ u32::from(seed);
    for _ in 0..length {
        state = state.wrapping_mul(1_664_525).wrapping_add(1_013_904_223);
        bytes.push((state >> 24) as u8);
    }
    bytes
}

#[test]
fn hello_and_world_come_back_to_their_senders() {
    runtime().block_on(async {
        let listener = Listener::from_candidates(&[ECHO, STOPPED]).unwrap();
        let (a, served_a) = connect_to(&listener, 50001);
        let (b, served_b) = connect_to(&listener, 50002);
        let a = tokio::spawn(exchange(a, b"hello".to_vec()));
        let b = tokio::spawn(exchange(b, b"world".to_vec()));
        assert_eq!(b.await.unwrap(), b"world".to_vec());
        assert_eq!(a.await.unwrap(), b"hello".to_vec());
        assert_eq!(served_a.await.unwrap(), Ok(()));
        assert_eq!(served_b.await.unwrap(), Ok(()));
    });
}

#[test]
fn stopped_upstream_gives_the_client_no_byte() {
    runtime().block_on(async {
        let listener = Listener::new(STOPPED);
        let (mut client, served) = connect_to(&listener, 50003);
        let mut received = Vec::new();
        client.read_to_end(&mut received).await.unwrap();
        assert_eq!(received, Vec::<u8>::new());
        assert_eq!(served.await.unwrap(), Err(ForwardError::ConnectFailed));
    });
}

#[test]
fn long_payload_passes_unchanged() {
    runtime().block_on(async {
        let listener = Listener::new(ECHO);
        let long = payload(1, 1_000_003);
        let (client, served) = connect_to(&listener, 50004);
        assert_eq!(exchange(client, long.clone()).await, long);
        assert_eq!(served.await.unwrap(), Ok(()));
        let (client, served) = connect_to(&listener, 50005);
        assert_eq!(exchange(client, Vec::new()).await, Vec::<u8>::new());
        assert_eq!(served.await.unwrap(), Ok(()));
    });
}

#[test]
fn many_clients_get_their_own_bytes() {
    runtime().block_on(async {
        let listener = Listener::new(ECHO);
        let mut exchanges = Vec::new();
        for i in 0..16u8 {
            let sent = payload(i, 20_000 + 997 * usize::from(i));
            let (client, served) = connect_to(&listener, 51000 + u16::from(i));
            exchanges.push((sent.clone(), tokio::spawn(exchange(client, sent)), served));
        }
        for (sent, exchanged, served) in exchanges.into_iter().rev() {
            assert_eq!(exchanged.await.unwrap(), sent);
            assert_eq!(served.await.unwrap(), Ok(()));
        }
    });
}

#[test]
fn failing_client_does_not_disturb_a_working_one() {
    runtime().block_on(async {
        let to_nowhere = Listener::new(STOPPED);
        let to_echo = Listener::new(ECHO);
        let (kept, served_kept) = connect_to(&to_echo, 50006);
        let (mut lost, served_lost) = connect_to(&to_nowhere, 50007);
        let kept = tokio::spawn(exchange(kept, b"still here".to_vec()));
        let mut received = Vec::new();
        lost.read_to_end(&mut received).await.unwrap();
        assert_eq!(received, Vec::<u8>::new());
        assert_eq!(served_lost.await.unwrap(), Err(ForwardError::ConnectFailed));
        assert_eq!(kept.await.unwrap(), b"still here".to_vec());
        assert_eq!(served_kept.await.unwrap(), Ok(()));
    });
}

#[test]
fn upstream_bytes_arrive_while_the_other_direction_is_stuck() {
    runtime().block_on(async {
        let net = Net::default();
        let listener = Listener::new(SILENT);
        let (client, served) = connect_through(&net, &listener, 50008);
        let (mut reader, mut writer) = split(client);
        let written = Arc::new(AtomicUsize::new(0));
        let counter = written.clone();
        let flood = tokio::spawn(async move {
            let block = payload(7, BUFFER);
            while writer.write_all(&block).await.is_ok() {
                counter.fetch_add(block.len(), Ordering::SeqCst);
            }
        });
        let mut seen: usize = 0;
        let mut quiet: usize = 0;
        while quiet < 1000 {
            yield_now().await;
            let now: usize = written.load(Ordering::SeqCst);
            quiet = if now == seen { quiet + 1 } else { 0 };
            seen = now;
        }
        assert!(seen > 0);
        assert!(!flood.is_finished());

        net.speak.store(true, Ordering::SeqCst);
        let mut received = [0u8; 4];
        reader.read_exact(&mut received).await.unwrap();
        assert_eq!(&received, b"pong");
        assert_eq!(written.load(Ordering::SeqCst), seen);
        assert!(!flood.is_finished());
        assert!(!served.is_finished());
        flood.abort();
        served.abort();
    });
}

#[test]
fn broken_upstream_is_a_copy_failure() {
    runtime().block_on(async {
        let listener = Listener::new(HANGS_UP);
        let (mut client, served) = connect_to(&listener, 50009);
        let _ = client.write_all(b"anyone there?").await;
        assert_eq!(served.await.unwrap(), Err(ForwardError::CopyFailed));
        let mut received = Vec::new();
        let _ = client.read_to_end(&mut received).await;
        assert_eq!(received, Vec::<u8>::new());
    });
}
