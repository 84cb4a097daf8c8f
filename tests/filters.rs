use gamedig::filter::{bool_as_char_u8, push_decimal, Filter};
use gamedig::region::Region;

#[test]
fn empty_tags_encode_to_nothing() {
    assert_eq!(Filter::HasTags(vec![]).to_bytes(), Vec::<u8>::new());
}

#[test]
fn tags_join_without_trailing_comma() {
    let tags = vec!["a".to_string(), "b".to_string()];
    assert_eq!(Filter::HasTags(tags).to_bytes(), b"\\gametype\\a,b".to_vec());
    let one = vec!["alltalk".to_string()];
    assert_eq!(Filter::HasTags(one).to_bytes(), b"\\gametype\\alltalk".to_vec());
}

#[test]
fn encoding_twice_is_identical() {
    let f = Filter::MatchName("my server".to_string());
    assert_eq!(f.to_bytes(), f.to_bytes());
    assert_eq!(f.to_bytes(), b"\\name_match\\my server".to_vec());
}

#[test]
fn flags_encode_as_ascii_digits() {
    assert_eq!(bool_as_char_u8(true), b'1');
    assert_eq!(bool_as_char_u8(false), b'0');
    let flags = vec![
        Filter::IsSecured(true),
        Filter::CanHavePassword(false),
        Filter::CanBeEmpty(true),
        Filter::IsEmpty(false),
        Filter::CanBeFull(true),
        Filter::RestrictUniqueIP(false),
        Filter::Whitelisted(true),
        Filter::SpectatorProxy(false),
        Filter::IsDedicated(true),
        Filter::RunsLinux(false),
    ];
    for f in flags {
        let bytes = f.to_bytes();
        assert!(!bytes.contains(&0u8));
        assert!(!bytes.contains(&1u8));
        let last = *bytes.last().unwrap();
        assert!(last == b'0' || last == b'1');
    }
}

#[test]
fn every_key() {
    let s = |x: &str| x.to_string();
    let cases: Vec<(Filter, &[u8])> = vec![
        (Filter::IsSecured(true), b"\\secure\\1"),
        (Filter::RunsMap(s("de_dust2")), b"\\map\\de_dust2"),
        (Filter::CanHavePassword(false), b"\\password\\0"),
        (Filter::CanBeEmpty(true), b"\\empty\\1"),
        (Filter::IsEmpty(false), b"\\noplayers\\0"),
        (Filter::CanBeFull(true), b"\\full\\1"),
        (Filter::RunsAppID(440), b"\\appid\\440"),
        (Filter::NotAppID(0), b"\\napp\\0"),
        (Filter::MatchName(s("x*")), b"\\name_match\\x*"),
        (Filter::MatchVersion(s("1.0")), b"\\version_match\\1.0"),
        (Filter::RestrictUniqueIP(true), b"\\collapse_addr_hash\\1"),
        (Filter::OnAddress(s("1.2.3.4")), b"\\gameaddr\\1.2.3.4"),
        (Filter::Whitelisted(false), b"\\white\\0"),
        (Filter::SpectatorProxy(true), b"\\proxy\\1"),
        (Filter::IsDedicated(false), b"\\dedicated\\0"),
        (Filter::RunsLinux(true), b"\\linux\\1"),
        (Filter::HasGameDir(s("tf")), b"\\gamedir\\tf"),
    ];
    for (f, expected) in cases {
        assert_eq!(f.to_bytes(), expected.to_vec());
    }
}

#[test]
fn app_ids_in_decimal() {
    assert_eq!(Filter::RunsAppID(u32::MAX).to_bytes(), b"\\appid\\4294967295".to_vec());
    let mut out = vec![b'x'];
    push_decimal(&mut out, 1000);
    assert_eq!(out, b"x1000".to_vec());
}

#[test]
fn utf8_payload_copied() {
    assert_eq!(Filter::RunsMap("é".to_string()).to_bytes(), b"\\map\\\xc3\xa9".to_vec());
}

#[test]
fn kinds_and_copies() {
    assert_eq!(Filter::IsSecured(true).kind_index(), Filter::IsSecured(false).kind_index());
    assert_ne!(Filter::IsSecured(true).kind_index(), Filter::RunsLinux(true).kind_index());
    let f = Filter::HasTags(vec!["a".to_string()]);
    assert_eq!(f.duplicate(), f);
    assert!(f.same_as(&f.duplicate()));
    assert!(!f.same_as(&Filter::HasTags(vec!["b".to_string()])));
    assert_eq!(Filter::OnAddress("x".to_string()).keyword(), "gameaddr");
}

#[test]
fn region_codes() {
    assert_eq!(Region::UsEast.code(), 0x00);
    assert_eq!(Region::UsWest.code(), 0x01);
    assert_eq!(Region::AmericaSouth.code(), 0x02);
    assert_eq!(Region::Europe.code(), 0x03);
    assert_eq!(Region::Asia.code(), 0x04);
    assert_eq!(Region::Australia.code(), 0x05);
    assert_eq!(Region::MiddleEast.code(), 0x06);
    assert_eq!(Region::Africa.code(), 0x07);
    assert_eq!(Region::Others.code(), 0xFF);
}
