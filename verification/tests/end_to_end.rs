//! End-to-end scenarios: the test plays the I/O layer's part over an
//! in-memory network that behaves like a non-blocking UDP stack —
//! performing each "socket call", feeding its outcome into the library as
//! an event, and obeying the step the core hands back — so that the whole
//! send-and-receive accounting is exercised from batch construction to
//! filled metadata.

use udp_fallback::{
    IpAddr, RecvEvent, RecvMeta, SendEvent, SendStep, SockAddr, Transmit, UdpPoll, UdpSocket,
};

const LOCALHOST: u32 = 0x7f00_0001;

fn loopback(port: u16) -> SockAddr {
    SockAddr { ip: IpAddr::V4(LOCALHOST), port }
}

/// A deterministic stand-in for the OS's UDP layer: a datagram sent to a
/// port with a listener is delivered; one sent to a dead port fails
/// synchronously, like a destination-unreachable reported on the spot.
struct FakeNet {
    listeners: Vec<u16>,
    delivered: Vec<(SockAddr, Vec<u8>)>,
}

impl FakeNet {
    fn try_send_to(&mut self, payload: &[u8], destination: SockAddr) -> SendEvent {
        if self.listeners.contains(&destination.port) {
            self.delivered.push((destination, payload.to_vec()));
            SendEvent::Sent
        } else {
            SendEvent::Fatal
        }
    }
}

/// One batched-send poll: attempts packets in order against `net` and lets
/// the socket core decide after each attempt.
fn drive_send(sock: &UdpSocket, batch: &Vec<Transmit>, net: &mut FakeNet) -> UdpPoll {
    let mut sent: usize = 0;
    loop {
        assert!(sent < batch.len());
        let event = net.try_send_to(&batch[sent].contents, batch[sent].destination);
        match sock.poll_send(batch, sent, event) {
            SendStep::Continue(n) => sent = n,
            SendStep::Done(v) => return v,
        }
    }
}

#[test]
fn three_packets_to_three_addresses() {
    let sender_port: u16 = 4000;
    let sock = UdpSocket::new(loopback(sender_port));
    assert_eq!(sock.local_addr(), loopback(sender_port));

    let ports: [u16; 3] = [5001, 5002, 5003];
    let payloads: [&[u8]; 3] = [b"alpha", b"bravo", b"charlie"];
    let mut net = FakeNet { listeners: ports.to_vec(), delivered: Vec::new() };

    let mut batch: Vec<Transmit> = Vec::new();
    let mut i: usize = 0;
    while i < 3 {
        batch.push(Transmit {
            destination: loopback(ports[i]),
            ecn: None,
            contents: payloads[i].to_vec(),
            segment_size: None,
        });
        i += 1;
    }

    let verdict = drive_send(&sock, &batch, &mut net);
    assert_eq!(verdict, UdpPoll::Ready(3));

    // three datagrams went out, in submission order, each to its own
    // destination with its own payload
    assert_eq!(net.delivered.len(), 3);
    let mut i: usize = 0;
    while i < 3 {
        assert_eq!(net.delivered[i].0, loopback(ports[i]));
        assert_eq!(net.delivered[i].1, payloads[i].to_vec());

        // each receiver runs the delivered datagram through the library's
        // receive path and sees matching metadata
        let receiver = UdpSocket::new(loopback(ports[i]));
        let mut meta: Vec<RecvMeta> =
            vec![RecvMeta { len: 0, addr: loopback(0), ecn: None, dst_ip: None }];
        let len: usize = net.delivered[i].1.len();
        let poll = receiver
            .poll_recv(&mut meta, RecvEvent::Received { len, addr: loopback(sender_port) });
        assert_eq!(poll, UdpPoll::Ready(1));
        assert_eq!(meta[0].len, payloads[i].len());
        assert_eq!(meta[0].addr, loopback(sender_port));
        assert!(meta[0].ecn.is_none());
        assert!(meta[0].dst_ip.is_none());
        i += 1;
    }
}

#[test]
fn synchronous_error_on_first_packet_stops_the_batch() {
    let sock = UdpSocket::new(loopback(4000));
    let dead_port: u16 = 5009;
    let live_port: u16 = 5010;
    let mut net = FakeNet { listeners: vec![live_port], delivered: Vec::new() };

    let batch = vec![
        Transmit {
            destination: loopback(dead_port),
            ecn: None,
            contents: b"first".to_vec(),
            segment_size: None,
        },
        Transmit {
            destination: loopback(live_port),
            ecn: None,
            contents: b"second".to_vec(),
            segment_size: None,
        },
    ];

    let verdict = drive_send(&sock, &batch, &mut net);
    // the error came with zero prior progress: it is propagated, and the
    // second packet was never attempted in this call
    assert_eq!(verdict, UdpPoll::Failed);
    assert_eq!(net.delivered.len(), 0);
}
