use luhbots::status::Status;

#[test]
fn status_without_address() {
    assert_eq!(Status::default().text(), b"IP: None\n\r".to_vec());
}

#[test]
fn status_with_address() {
    let s = Status { ip: Some([192, 168, 0, 1]) };
    assert_eq!(s.text(), b"IP: 192.168.0.1\n\r".to_vec());
    let s = Status { ip: Some([10, 0, 255, 99]) };
    assert_eq!(s.text(), b"IP: 10.0.255.99\n\r".to_vec());
    // The longest line fits the 32 byte buffer.
    let s = Status { ip: Some([255, 255, 255, 255]) };
    assert_eq!(s.text().len(), 4 + 15 + 2);
}
