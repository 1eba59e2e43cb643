use driver_ring::caps::{Endpoint, MemoryRegionHandle};
use driver_ring::client::acpi::AcpiClient;
use driver_ring::client::battery::BatteryClient;
use driver_ring::client::fb::FbClient;
use driver_ring::client::input::InputClient;
use driver_ring::client::net::NetClient;
use driver_ring::client::pci::PciClient;
use driver_ring::client::platform::PlatformClient;
use driver_ring::client::thermal::ThermalClient;
use driver_ring::client::timer::TimerClient;
use driver_ring::client::uart::UartClient;
use driver_ring::error::Error;
use driver_ring::protocol::pci::PciAddress;
use driver_ring::protocol::{
    acpi, battery, fb, input, net, pci, platform, thermal, timer, uart, ControlReply,
    ACPI_PROTO, BATTERY_PROTO, FB_PROTO, INPUT_PROTO, IPC_BUFFER_SIZE, NET_PROTO, PCI_PROTO,
    PLATFORM_PROTO, THERMAL_PROTO, TIMER_PROTO, UART_PROTO,
};
use driver_ring::ring::IoRing;
use driver_ring::session::{BufferSetupReply, RingSetupReply};
use driver_ring::shm::SharedBufferRegion;
use driver_ring::transport::IoRingServer;

fn ok_reply(mrs: [u64; 8]) -> ControlReply {
    ControlReply { ok: true, mrs, buffer: Vec::new(), cap: None }
}

fn failed_reply() -> ControlReply {
    ControlReply { ok: false, mrs: [0; 8], buffer: Vec::new(), cap: None }
}

fn activate(session: &mut driver_ring::session::Session, opcode: usize) {
    session
        .ring_setup_request(opcode, 8, 8, Endpoint { cap: 21 }, 22)
        .unwrap();
    session
        .apply_ring_setup(&RingSetupReply {
            ok: true,
            handle: Some(MemoryRegionHandle { cap: 22 }),
            sq_entries: 8,
            cq_entries: 8,
            region_size: 64 + 8 * 64 + 8 * 16,
        })
        .unwrap();
    session
        .apply_buffer_setup(&BufferSetupReply {
            ok: true,
            handle: Some(MemoryRegionHandle { cap: 23 }),
            vaddr: 0x9000_0000,
            size: 4096,
            paddr: 0,
        })
        .unwrap();
    session.complete_handshake().unwrap();
}

#[test]
fn net_mac_parsing_and_caching() {
    let mut client = NetClient::new(Endpoint { cap: 8 });
    let req = client.mac_request();
    assert_eq!(req.tag.protocol, NET_PROTO);
    assert_eq!(req.tag.opcode, net::GET_MAC);

    let mac = client.parse_mac_reply(&ok_reply([0xDE, 0xAD, 0xBE, 0xEF, 0x01, 0x02, 0, 0]));
    assert_eq!(mac.octets, [0xDE, 0xAD, 0xBE, 0xEF, 0x01, 0x02]);
    let zero = client.parse_mac_reply(&failed_reply());
    assert_eq!(zero.octets, [0; 6]);

    assert_eq!(client.mac_address().octets, [0; 6]);
    client.cache_mac(mac);
    assert_eq!(client.mac_address().octets, [0xDE, 0xAD, 0xBE, 0xEF, 0x01, 0x02]);
}

#[test]
fn net_send_stages_packet_and_matches_completion() {
    let mut client = NetClient::new(Endpoint { cap: 8 });
    activate(client.session_mut(), net::SETUP_RING);
    let mut ring = IoRing::new(8, 8).unwrap();
    let mut shm = SharedBufferRegion::new(4096, 0x9000_0000, 0);
    let server = IoRingServer::new();

    let frame: Vec<u8> = (0..60u8).collect();
    let id = client.begin_send_packet(&mut ring, &mut shm, &frame).unwrap();
    assert_eq!(shm.read_at(0, 60).unwrap(), frame);
    assert_eq!(server.serve_next(&mut ring, 60).unwrap(), Some(id));
    assert_eq!(client.take_completion(&mut ring, id), Some(60));
}

#[test]
fn net_oversize_packet_is_refused_locally() {
    let mut client = NetClient::new(Endpoint { cap: 8 });
    activate(client.session_mut(), net::SETUP_RING);
    let mut ring = IoRing::new(8, 8).unwrap();
    let mut shm = SharedBufferRegion::new(64, 0x9000_0000, 0);
    let frame = vec![0u8; 65];
    assert_eq!(
        client.begin_send_packet(&mut ring, &mut shm, &frame),
        Err(Error::InvalidArgs)
    );
    assert!(ring.pop_sqe().is_none());
}

#[test]
fn net_recv_submission_uses_the_callers_id() {
    let mut client = NetClient::new(Endpoint { cap: 8 });
    activate(client.session_mut(), net::SETUP_RING);
    let mut ring = IoRing::new(8, 8).unwrap();
    let shm = SharedBufferRegion::new(4096, 0x9000_0000, 0);
    client.submit_recv(&mut ring, &shm, 1500, 77).unwrap();
    let sqe = ring.pop_sqe().unwrap();
    assert_eq!(sqe.opcode, net::OP_RECV);
    assert_eq!(sqe.len, 1500);
    assert_eq!(sqe.user_data, 77);
}

#[test]
fn uart_control_requests_and_chunked_strings() {
    let client = UartClient::new(Endpoint { cap: 30 });
    let put = client.put_char_request(b'A');
    assert_eq!(put.tag.protocol, UART_PROTO);
    assert_eq!(put.tag.opcode, uart::PUT_CHAR);
    assert_eq!(put.mrs[0], b'A' as u64);

    let get = client.get_char_request();
    assert_eq!(get.tag.opcode, uart::GET_CHAR);
    assert_eq!(
        client.parse_get_char_reply(&ok_reply([b'z' as u64, 0, 0, 0, 0, 0, 0, 0])),
        Some(b'z')
    );
    assert_eq!(client.parse_get_char_reply(&failed_reply()), None);

    let baud = client.set_baud_rate_request(115200);
    assert_eq!(baud.tag.opcode, uart::SET_BAUD_RATE);
    assert_eq!(baud.mrs[0], 115200);

    // A string longer than the inline buffer is cut into full chunks plus
    // the remainder, and the chunks reassemble the input exactly.
    let text: Vec<u8> = (0..=255u8).cycle().take(2 * IPC_BUFFER_SIZE + 100).collect();
    let requests = client.put_str_requests(&text);
    assert_eq!(requests.len(), 3);
    assert_eq!(requests[0].buffer.len(), IPC_BUFFER_SIZE);
    assert_eq!(requests[1].buffer.len(), IPC_BUFFER_SIZE);
    assert_eq!(requests[2].buffer.len(), 100);
    let mut rebuilt = Vec::new();
    for req in &requests {
        assert_eq!(req.tag.opcode, uart::PUT_STR);
        rebuilt.extend_from_slice(&req.buffer);
    }
    assert_eq!(rebuilt, text);
    assert_eq!(client.put_str_requests(&Vec::new()).len(), 0);
}

#[test]
fn uart_async_io_goes_through_the_ring() {
    let mut client = UartClient::new(Endpoint { cap: 30 });
    activate(client.session_mut(), uart::SETUP_RING);
    let mut ring = IoRing::new(8, 8).unwrap();
    client.write_async(&mut ring, 0x9000_0000, 16, 0x1000).unwrap();
    client.read_async(&mut ring, 0x9000_0010, 16, 0x1001).unwrap();
    let w = ring.pop_sqe().unwrap();
    assert_eq!(w.opcode, driver_ring::protocol::IOURING_OP_WRITE);
    assert_eq!(w.user_data, 0x1000);
    let r = ring.pop_sqe().unwrap();
    assert_eq!(r.opcode, driver_ring::protocol::IOURING_OP_READ);
    assert_eq!(r.user_data, 0x1001);
    // Before the handshake nothing may touch the ring.
    let mut cold = UartClient::new(Endpoint { cap: 31 });
    assert_eq!(
        cold.read_async(&mut ring, 0, 4, 1),
        Err(Error::NotInitialized)
    );
}

#[test]
fn input_event_ring_setup_and_polling() {
    let client = InputClient::new(Endpoint { cap: 40 });
    let req = client.setup_uring_request(64).unwrap();
    assert_eq!(req.tag.protocol, INPUT_PROTO);
    assert_eq!(req.tag.opcode, input::SETUP_URING);
    assert_eq!(req.mrs[0], 64);
    assert!(matches!(client.setup_uring_request(63), Err(Error::InvalidArgs)));

    // 64 slots of 80 bytes round up to two pages.
    assert_eq!(InputClient::uring_region_size(64), 8192);
    assert_eq!(InputClient::uring_region_size(1), 4096);

    let with_cap = ControlReply { ok: true, mrs: [0; 8], buffer: Vec::new(), cap: Some(9) };
    assert_eq!(client.check_setup_uring_reply(&with_cap), Ok(()));
    let without_cap = ControlReply { ok: true, mrs: [0; 8], buffer: Vec::new(), cap: None };
    assert_eq!(client.check_setup_uring_reply(&without_cap), Err(Error::OutOfMemory));
    assert_eq!(client.check_setup_uring_reply(&failed_reply()), Err(Error::Generic));

    let event = client
        .parse_event_reply(&ok_reply([input::EV_KEY as u64, input::KEY_ENTER as u64, 1, 99, 0, 0, 0, 0]))
        .unwrap();
    assert_eq!(event.type_, input::EV_KEY);
    assert_eq!(event.code, input::KEY_ENTER);
    assert_eq!(event.value, 1);
    assert_eq!(event.time_ms, 99);
    assert!(client.parse_event_reply(&failed_reply()).is_none());
}

#[test]
fn fb_info_caching_and_flush() {
    let mut client = FbClient::new(Endpoint { cap: 50 });
    assert_eq!(client.info().width, 0);
    client.apply_info_reply(&ok_reply([1024, 768, 4096, 1, 32, 0xE000_0000, 3145728, 0]));
    let info = client.get_info();
    assert_eq!(info.width, 1024);
    assert_eq!(info.height, 768);
    assert_eq!(info.pitch, 4096);
    assert_eq!(info.bpp, 32);
    assert_eq!(info.size, 3145728);

    let flush = client.flush_request(0, 0, 1024, 768);
    assert_eq!(flush.tag.protocol, FB_PROTO);
    assert_eq!(flush.tag.opcode, fb::FLUSH);
    assert_eq!(flush.mrs[2], 1024);
    assert_eq!(flush.mrs[3], 768);

    client.apply_info_reply(&failed_reply());
    assert_eq!(client.info().width, 0);
}

#[test]
fn timer_requests_and_cached_frequency() {
    let mut client = TimerClient::new(Endpoint { cap: 60 });
    assert_eq!(client.freq(), 0);
    client.apply_freq_reply(&ok_reply([10_000_000, 0, 0, 0, 0, 0, 0, 0]));
    assert_eq!(client.freq(), 10_000_000);

    assert_eq!(client.freq_request().tag.protocol, TIMER_PROTO);
    assert_eq!(client.get_time_request().tag.opcode, timer::GET_TIME);
    assert_eq!(client.parse_time_reply(&ok_reply([1234, 0, 0, 0, 0, 0, 0, 0])), 1234);
    assert_eq!(client.parse_time_reply(&failed_reply()), 0);
    assert_eq!(client.set_time_request(777).mrs[0], 777);
    assert_eq!(client.set_alarm_request(888).mrs[0], 888);
    assert_eq!(client.stop_alarm_request().tag.opcode, timer::STOP_ALARM);
}

#[test]
fn pci_requests_carry_offsets_and_values() {
    let address = PciAddress { segment: 0, bus: 1, device: 2, function: 3 };
    let client = PciClient::new(Endpoint { cap: 70 }, address);
    assert_eq!(client.get_address(), address);

    let read = client.read_config_request(pci::PCI_VENDOR_ID, 2);
    assert_eq!(read.tag.protocol, PCI_PROTO);
    assert_eq!(read.tag.opcode, pci::READ_CONFIG);
    assert_eq!(read.mrs[0], 0);
    assert_eq!(read.mrs[1], 2);
    assert_eq!(client.parse_read_config_reply(&ok_reply([0x8086, 0, 0, 0, 0, 0, 0, 0])), 0x8086);

    let write = client.write_config_request(pci::PCI_COMMAND, 0x6, 2);
    assert_eq!(write.tag.opcode, pci::WRITE_CONFIG);
    assert_eq!(write.mrs[0], 4);
    assert_eq!(write.mrs[1], 6);
    assert_eq!(write.mrs[2], 2);

    assert_eq!(client.enable_bus_master_request().tag.opcode, pci::ENABLE_BUS_MASTER);
    let msi = client.enable_msi_request(5, 0);
    assert_eq!(msi.tag.opcode, pci::ENABLE_MSI);
    assert_eq!(msi.mrs[0], 5);
}

#[test]
fn platform_power_requests() {
    let client = PlatformClient::new(Endpoint { cap: 80 });
    let sleep = client.set_sleep_state_request(3);
    assert_eq!(sleep.tag.protocol, PLATFORM_PROTO);
    assert_eq!(sleep.tag.opcode, platform::SET_SLEEP_STATE);
    assert_eq!(sleep.mrs[0], 3);
    assert_eq!(client.reset_request(true).mrs[0], 0);
    assert_eq!(client.reset_request(false).mrs[0], 1);
    assert_eq!(client.shutdown_request().tag.opcode, platform::SYSTEM_OFF);
}

#[test]
fn thermal_and_battery_reads() {
    let thermal_client = ThermalClient::new(Endpoint { cap: 90 });
    let req = thermal_client.get_temperature_request(2);
    assert_eq!(req.tag.protocol, THERMAL_PROTO);
    assert_eq!(req.tag.opcode, thermal::GET_TEMPERATURE);
    assert_eq!(req.mrs[0], 2);
    assert_eq!(thermal_client.parse_temperature_reply(&ok_reply([3081, 0, 0, 0, 0, 0, 0, 0])), 3081);

    let battery_client = BatteryClient::new(Endpoint { cap: 91 });
    assert_eq!(battery_client.get_power_source_request().tag.protocol, BATTERY_PROTO);
    assert_eq!(battery_client.get_level_request().tag.opcode, battery::GET_LEVEL);
    assert_eq!(battery_client.get_status_request().tag.opcode, battery::GET_STATUS);
    assert_eq!(battery_client.parse_value_reply(&ok_reply([87, 0, 0, 0, 0, 0, 0, 0])), 87);
}

#[test]
fn acpi_method_evaluation_frames_and_parses() {
    let client = AcpiClient::new(Endpoint { cap: 95 });
    let path = b"\\_OSC".to_vec();
    let args = vec![1u64, 2, 3];
    let req = client.evaluate_method_request(&path, &args).unwrap();
    assert_eq!(req.tag.protocol, ACPI_PROTO);
    assert_eq!(req.tag.opcode, acpi::EVAL_METHOD);
    // The frame: path length, path bytes, argument count, arguments.
    assert_eq!(&req.buffer[0..4], &[5, 0, 0, 0]);
    assert_eq!(&req.buffer[4..9], b"\\_OSC");
    assert_eq!(&req.buffer[9..13], &[3, 0, 0, 0]);
    assert_eq!(req.buffer.len(), 13 + 3 * 8);

    let results = driver_ring::codec::encode_u64_list(&vec![7u64, 8]);
    let reply = ControlReply { ok: true, mrs: [0; 8], buffer: results, cap: None };
    assert_eq!(client.parse_eval_reply(&reply).unwrap(), vec![7, 8]);
    assert!(matches!(client.parse_eval_reply(&failed_reply()), Err(Error::Generic)));
    let bad = ControlReply { ok: true, mrs: [0; 8], buffer: vec![9, 0, 0, 0], cap: None };
    assert_eq!(client.parse_eval_reply(&bad), Err(Error::InvalidArgs));
}
