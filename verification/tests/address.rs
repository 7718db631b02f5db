use device_monitor::address::{address_text, id_from_octets, octets_of, ADDRESS_LIMIT};

#[test]
fn address_of_zero() {
    assert_eq!(address_text(0), "00:00:00:00:00:00");
}

#[test]
fn address_of_mixed_octets() {
    assert_eq!(address_text(0x0123_4567_89AB), "01:23:45:67:89:AB");
    assert_eq!(address_text(0xCDEF_0A0B_0C0D), "CD:EF:0A:0B:0C:0D");
}

#[test]
fn address_of_all_ones() {
    assert_eq!(address_text(0xFFFF_FFFF_FFFF), "FF:FF:FF:FF:FF:FF");
}

#[test]
fn address_ignores_bits_above_the_sixth_octet() {
    assert_eq!(address_text(u64::MAX), "FF:FF:FF:FF:FF:FF");
    assert_eq!(address_text(0x0001_0000_0000_0001), "00:00:00:00:00:01");
}

#[test]
fn identifier_from_octets_puts_first_octet_highest() {
    assert_eq!(
        id_from_octets([0x00, 0x11, 0x22, 0xAA, 0xBB, 0xCC]),
        0x0011_22AA_BBCC
    );
    assert_eq!(id_from_octets([0, 0, 0, 0, 0, 0]), 0);
    assert_eq!(id_from_octets([1, 0, 0, 0, 0, 0]), 0x0100_0000_0000);
    assert_eq!(id_from_octets([0, 0, 0, 0, 0, 1]), 1);
    assert_eq!(id_from_octets([0xFF; 6]), ADDRESS_LIMIT - 1);
}

#[test]
fn octets_of_identifier_are_most_significant_first() {
    assert_eq!(
        octets_of(0x0123_4567_89AB),
        [0x01, 0x23, 0x45, 0x67, 0x89, 0xAB]
    );
    assert_eq!(octets_of(0), [0; 6]);
    assert_eq!(octets_of(u64::MAX), [0xFF; 6]);
    assert_eq!(octets_of(ADDRESS_LIMIT), [0; 6]);
}

#[test]
fn octets_and_identifier_round_trip() {
    let all = [
        [0x00, 0x00, 0x00, 0x00, 0x00, 0x00],
        [0xF4, 0x73, 0x35, 0x01, 0x02, 0x03],
        [0xFF, 0xFF, 0xFF, 0xFF, 0xFF, 0xFF],
        [0x80, 0x00, 0x7F, 0x10, 0x0F, 0xF0],
    ];
    for octets in all {
        let id = id_from_octets(octets);
        assert!(id < ADDRESS_LIMIT);
        assert_eq!(octets_of(id), octets);
        assert_eq!(id_from_octets(octets_of(id)), id);
    }
}

#[test]
fn printed_address_follows_the_octets() {
    assert_eq!(
        address_text(id_from_octets([0xDE, 0xAD, 0xBE, 0xEF, 0x00, 0x9A])),
        "DE:AD:BE:EF:00:9A"
    );
}
