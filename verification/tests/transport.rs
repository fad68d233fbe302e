use junk_pedals::transport::{
    PushOutcome, TransportError, DEVICE_CLASS, MANUFACTURER, POLL_MS, PRODUCT, PRODUCT_ID,
    VENDOR_ID,
};

#[test]
fn usb_identification() {
    assert_eq!(VENDOR_ID, 0x27DC);
    assert_eq!(PRODUCT_ID, 0x16C0);
    assert_eq!(DEVICE_CLASS, 0xEF);
    assert_eq!(MANUFACTURER, "Yeebs Industries");
    assert_eq!(PRODUCT, "Junk Pedals");
}

#[test]
fn host_poll_interval() {
    assert_eq!(POLL_MS, 10);
}

#[test]
fn push_outcome_is_bytes_or_error() {
    let sent: PushOutcome = Ok(2);
    let busy: PushOutcome = Err(TransportError::WouldBlock);
    assert_eq!(sent.ok(), Some(2));
    assert_eq!(busy.ok().unwrap_or(0), 0);
    assert_ne!(TransportError::WouldBlock, TransportError::InvalidState);
}
