use w5500::{IpAddress, MacAddress};

#[test]
fn ip_new_keeps_the_bytes_in_order() {
    assert_eq!(IpAddress::new(192, 168, 0, 1).address, [192, 168, 0, 1]);
}

#[test]
fn ip_text_is_dotted_decimal() {
    assert_eq!(IpAddress::new(192, 168, 0, 1).to_string(), "192.168.0.1");
    assert_eq!(IpAddress::new(0, 10, 100, 255).to_string(), "0.10.100.255");
}

#[test]
fn ip_reads_four_fields() {
    assert_eq!(IpAddress::try_from("192.168.0.1").unwrap().address, [192, 168, 0, 1]);
    assert_eq!(IpAddress::try_from("007.0.255.10").unwrap().address, [7, 0, 255, 10]);
}

#[test]
fn ip_missing_fields_are_zero() {
    assert_eq!(IpAddress::try_from("10.1").unwrap().address, [10, 1, 0, 0]);
    assert_eq!(IpAddress::try_from("10").unwrap().address, [10, 0, 0, 0]);
}

#[test]
fn ip_text_past_the_fourth_field_is_not_read() {
    assert_eq!(IpAddress::try_from("1.2.3.4.garbage").unwrap().address, [1, 2, 3, 4]);
    assert_eq!(IpAddress::try_from("1.2.3.4.").unwrap().address, [1, 2, 3, 4]);
}

#[test]
fn ip_a_field_may_start_with_plus() {
    assert_eq!(IpAddress::try_from("+1.2.3.4").unwrap().address, [1, 2, 3, 4]);
}

#[test]
fn ip_rejects_what_is_no_byte() {
    assert!(IpAddress::try_from("").is_err());
    assert!(IpAddress::try_from("1..2.3").is_err());
    assert!(IpAddress::try_from("256.1.1.1").is_err());
    assert!(IpAddress::try_from("a.b.c.d").is_err());
    assert!(IpAddress::try_from("1.2.3.-4").is_err());
    assert!(IpAddress::try_from(" 1.2.3.4").is_err());
    assert!(IpAddress::try_from("+.1.1.1").is_err());
    assert!(IpAddress::try_from("1.2.3.").is_err());
}

#[test]
fn ip_text_reads_back() {
    for ip in [
        IpAddress::new(0, 0, 0, 0),
        IpAddress::new(255, 255, 255, 255),
        IpAddress::new(9, 10, 99, 100),
    ] {
        let text = ip.to_string();
        assert_eq!(IpAddress::try_from(text.as_str()).unwrap(), ip);
    }
}

#[test]
fn mac_new_keeps_the_bytes_in_order() {
    assert_eq!(MacAddress::new(2, 0, 0, 0xab, 0xcd, 0xef).address, [2, 0, 0, 0xab, 0xcd, 0xef]);
}

#[test]
fn mac_text_is_lowercase_hex_pairs() {
    assert_eq!(MacAddress::new(2, 0, 0, 0xab, 0xcd, 0xef).to_string(), "02:00:00:ab:cd:ef");
}

#[test]
fn mac_reads_hex_in_either_case() {
    assert_eq!(
        MacAddress::try_from("02:00:00:AB:cd:Ef").unwrap().address,
        [2, 0, 0, 0xab, 0xcd, 0xef]
    );
    assert_eq!(MacAddress::try_from("1:2").unwrap().address, [1, 2, 0, 0, 0, 0]);
    assert_eq!(MacAddress::try_from("1:2:3:4:5:6:zz").unwrap().address, [1, 2, 3, 4, 5, 6]);
}

#[test]
fn mac_rejects_what_is_no_byte() {
    assert!(MacAddress::try_from("g0:00:00:00:00:00").is_err());
    assert!(MacAddress::try_from("100:00:00:00:00:00").is_err());
    assert!(MacAddress::try_from("").is_err());
    assert!(MacAddress::try_from("01::02").is_err());
}

#[test]
fn mac_text_reads_back() {
    let mac = MacAddress::new(0x0f, 0xf0, 0x00, 0xff, 0x12, 0x9a);
    assert_eq!(MacAddress::try_from(mac.to_string().as_str()).unwrap(), mac);
}
