use std::io::Write;
use venue_feed::transport::{
    decode_inbound, inbound_of_inflated, uplink_quota, Downlink, Driver, Inbound, Incoming,
    QuotaError, UplinkQuota, Uplink, WireFrame,
};

fn gzip_of(text: &str) -> Vec<u8> {
    let mut encoder = flate2::write::GzEncoder::new(Vec::new(), flate2::Compression::default());
    encoder.write_all(text.as_bytes()).unwrap();
    encoder.finish().unwrap()
}

#[test]
fn text_frame_surfaces_as_its_text() {
    let frame = WireFrame::Text("{\"a\":1}".to_string());
    assert_eq!(decode_inbound(frame.clone(), false), Inbound::Text("{\"a\":1}".to_string()));
    assert_eq!(decode_inbound(frame, true), Inbound::Text("{\"a\":1}".to_string()));
}

#[test]
fn compressed_frame_surfaces_as_the_text_inside() {
    let bytes = gzip_of("{\"ch\":\"market.btcusdt.trade\"}");
    assert_ne!(bytes, "{\"ch\":\"market.btcusdt.trade\"}".as_bytes().to_vec());
    assert_eq!(
        decode_inbound(WireFrame::Binary(bytes), true),
        Inbound::Text("{\"ch\":\"market.btcusdt.trade\"}".to_string())
    );
}

#[test]
fn binary_frame_of_a_venue_without_compression_is_dropped() {
    let bytes = gzip_of("hello");
    assert_eq!(decode_inbound(WireFrame::Binary(bytes), false), Inbound::Dropped);
}

#[test]
fn binary_frame_that_is_no_gzip_stream_is_dropped() {
    assert_eq!(decode_inbound(WireFrame::Binary(vec![1, 2, 3, 4]), true), Inbound::Dropped);
    assert_eq!(decode_inbound(WireFrame::Binary(Vec::new()), true), Inbound::Dropped);
}

#[test]
fn compressed_frame_that_is_not_utf8_is_dropped() {
    let mut encoder = flate2::write::GzEncoder::new(Vec::new(), flate2::Compression::default());
    encoder.write_all(&[0xff, 0xfe, 0xfd]).unwrap();
    let bytes = encoder.finish().unwrap();
    assert_eq!(decode_inbound(WireFrame::Binary(bytes), true), Inbound::Dropped);
}

#[test]
fn control_close_and_raw_frames() {
    assert_eq!(decode_inbound(WireFrame::Ping(vec![1]), false), Inbound::Control);
    assert_eq!(decode_inbound(WireFrame::Pong(vec![1]), true), Inbound::Control);
    assert_eq!(decode_inbound(WireFrame::Close, false), Inbound::Closed);
    assert_eq!(decode_inbound(WireFrame::Raw, true), Inbound::Dropped);
}

#[test]
fn inflated_text_or_nothing() {
    assert_eq!(inbound_of_inflated(Some("x".to_string())), Inbound::Text("x".to_string()));
    assert_eq!(inbound_of_inflated(None), Inbound::Dropped);
}

#[test]
fn commands_are_limited_and_control_frames_are_not() {
    let mut driver = Driver::new(false);
    assert_eq!(
        driver.on_command(Some(WireFrame::Text("sub".to_string()))),
        Uplink::Limited(WireFrame::Text("sub".to_string()))
    );
    assert_eq!(
        driver.on_command(Some(WireFrame::Binary(vec![7]))),
        Uplink::Limited(WireFrame::Binary(vec![7]))
    );
    assert_eq!(
        driver.on_command(Some(WireFrame::Ping(vec![1]))),
        Uplink::Direct(WireFrame::Ping(vec![1]))
    );
    assert_eq!(
        driver.on_command(Some(WireFrame::Pong(vec![2]))),
        Uplink::Direct(WireFrame::Pong(vec![2]))
    );
    assert_eq!(driver.on_command(Some(WireFrame::Raw)), Uplink::Direct(WireFrame::Raw));
    assert!(!driver.stopped);
}

#[test]
fn close_command_stops_the_driver_and_later_sends_are_dropped() {
    let mut driver = Driver::new(false);
    assert_eq!(driver.on_command(Some(WireFrame::Close)), Uplink::Shutdown);
    assert!(driver.stopped);
    assert_eq!(driver.on_command(Some(WireFrame::Close)), Uplink::Discard);
    assert_eq!(driver.on_command(Some(WireFrame::Text("sub".to_string()))), Uplink::Discard);
    assert_eq!(driver.on_command(None), Uplink::Discard);
    assert_eq!(
        driver.on_incoming(Incoming::Frame(WireFrame::Text("late".to_string()))),
        Downlink::Discard
    );
    assert!(driver.stopped);
}

#[test]
fn closed_command_channel_stops_the_driver() {
    let mut driver = Driver::new(true);
    assert_eq!(driver.on_command(None), Uplink::Shutdown);
    assert!(driver.stopped);
    assert!(driver.gzip);
}

#[test]
fn incoming_text_is_delivered_in_order() {
    let mut driver = Driver::new(true);
    let mut delivered: Vec<String> = Vec::new();
    let frames = vec![
        WireFrame::Text("one".to_string()),
        WireFrame::Binary(gzip_of("two")),
        WireFrame::Ping(Vec::new()),
        WireFrame::Text("three".to_string()),
        WireFrame::Raw,
    ];
    for frame in frames {
        match driver.on_incoming(Incoming::Frame(frame)) {
            Downlink::Deliver(text) => delivered.push(text),
            Downlink::Control | Downlink::Skip => {}
            other => panic!("unexpected {:?}", other),
        }
    }
    assert_eq!(delivered, vec!["one".to_string(), "two".to_string(), "three".to_string()]);
    assert!(!driver.stopped);
}

#[test]
fn failure_end_and_close_of_the_stream_stop_the_driver() {
    let mut failed = Driver::new(false);
    assert_eq!(failed.on_incoming(Incoming::Failed), Downlink::Shutdown);
    assert!(failed.stopped);
    let mut ended = Driver::new(false);
    assert_eq!(ended.on_incoming(Incoming::Ended), Downlink::Shutdown);
    assert!(ended.stopped);
    let mut closed = Driver::new(false);
    assert_eq!(closed.on_incoming(Incoming::Frame(WireFrame::Close)), Downlink::Shutdown);
    assert!(closed.stopped);
}

#[test]
fn quota_spreads_the_burst_over_the_period() {
    assert_eq!(
        uplink_quota(10, 1_000_000_000),
        Ok(UplinkQuota { max_burst: 10, cell_nanos: 100_000_000 })
    );
    assert_eq!(
        uplink_quota(100, 10_000_000_000),
        Ok(UplinkQuota { max_burst: 100, cell_nanos: 100_000_000 })
    );
    assert_eq!(uplink_quota(3, 10), Ok(UplinkQuota { max_burst: 3, cell_nanos: 3 }));
}

#[test]
fn quota_rejects_an_empty_bucket_and_a_period_too_short() {
    assert_eq!(uplink_quota(0, 1_000_000_000), Err(QuotaError::ZeroBurst));
    assert_eq!(uplink_quota(0, 0), Err(QuotaError::ZeroBurst));
    assert_eq!(uplink_quota(10, 0), Err(QuotaError::ZeroInterval));
    assert_eq!(uplink_quota(10, 9), Err(QuotaError::ZeroInterval));
}
