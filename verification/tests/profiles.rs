use dns_changer::ipv4::is_valid_ip;
use dns_changer::profiles::{menu_choice, MenuChoice};

fn applied(id: &str) -> (String, String, String) {
    match menu_choice(id) {
        MenuChoice::Apply(p) => (p.name, p.primary, p.secondary),
        other => panic!("{:?}", other),
    }
}

fn triple(a: &str, b: &str, c: &str) -> (String, String, String) {
    (a.to_string(), b.to_string(), c.to_string())
}

#[test]
fn menu_profiles() {
    assert_eq!(applied("cat_cloudflare"), triple("Cloudflare", "1.1.1.1", "1.0.0.1"));
    assert_eq!(applied("cat_google"), triple("Google DNS", "8.8.8.8", "8.8.4.4"));
    assert_eq!(applied("cat_quad9"), triple("Quad9", "9.9.9.9", "149.112.112.112"));
    assert_eq!(applied("cat_open"), triple("OpenDNS", "208.67.222.222", "208.67.220.220"));
}

#[test]
fn menu_actions() {
    assert!(matches!(menu_choice("quit"), MenuChoice::Quit));
    assert!(matches!(menu_choice("show"), MenuChoice::Show));
    assert!(matches!(menu_choice("cat_reset"), MenuChoice::Reset));
    assert!(matches!(menu_choice(""), MenuChoice::Unknown));
    assert!(matches!(menu_choice("Quit"), MenuChoice::Unknown));
    assert!(matches!(menu_choice("cat_cloudflare "), MenuChoice::Unknown));
}

#[test]
fn profile_addresses_are_valid() {
    for id in ["cat_cloudflare", "cat_google", "cat_quad9", "cat_open"] {
        let (_, primary, secondary) = applied(id);
        assert!(is_valid_ip(&primary));
        assert!(is_valid_ip(&secondary));
    }
}
