use wifi_qr_specs::wpa::{WPA, WPABuilder, WPAErrors};

#[test]
fn wpa_it_encodes_valid_wifi_forms() {
    let wpa = WPA::builder()
        .ssid("ghamza")
        .password("P@ssw0rd")
        .hidden(true)
        .build()
        .ok()
        .unwrap();
    assert_eq!(wpa.encode(), "WIFI:T:WPA;S:ghamza;P:P@ssw0rd;H:true;;");

    let wpa = WPA::builder()
        .ssid("ghamza")
        .password("P@ssw0rd")
        .hidden(false)
        .build()
        .ok()
        .unwrap();
    assert_eq!(wpa.encode(), "WIFI:T:WPA;S:ghamza;P:P@ssw0rd;H:false;;");
}

#[test]
fn wpa_it_throws_error_when_required_field_is_missing() {
    let wpa = WPA::builder()
        .build()
        .err()
        .unwrap();
    assert!(matches!(wpa, WPAErrors::NoPasswordAndSSID));

    let wpa = WPA::builder()
        .ssid("ghamza")
        .build()
        .err()
        .unwrap();
    assert!(matches!(wpa, WPAErrors::NoPassword));

    let wpa = WPA::builder()
        .password("P@ssw0rd")
        .build()
        .err()
        .unwrap();
    assert!(matches!(wpa, WPAErrors::NoSSID));
}

#[test]
fn wpa_hidden_defaults_to_false() {
    let wpa = WPABuilder::new()
        .password("pw")
        .ssid("net")
        .build()
        .ok()
        .unwrap();
    assert_eq!(wpa.encode(), "WIFI:T:WPA;S:net;P:pw;H:false;;");
}

#[test]
fn wpa_escapes_ssid_and_password() {
    let wpa = WPA::builder()
        .ssid(r#"my"net\"#)
        .password("a,b;c")
        .build()
        .ok()
        .unwrap();
    assert_eq!(wpa.encode(), r#"WIFI:T:WPA;S:my\"net\\;P:a\,b\;c;H:false;;"#);
}

#[test]
fn wpa_last_password_wins() {
    let wpa = WPA::builder()
        .ssid("net")
        .password("old")
        .password("new")
        .hidden(true)
        .hidden(false)
        .build()
        .ok()
        .unwrap();
    assert_eq!(wpa.encode(), "WIFI:T:WPA;S:net;P:new;H:false;;");
}

#[test]
fn wpa_missing_both_is_its_own_error() {
    let e = WPA::builder().hidden(true).build().err().unwrap();
    assert_eq!(e, WPAErrors::NoPasswordAndSSID);
    assert_ne!(e, WPAErrors::NoSSID);
    assert_ne!(e, WPAErrors::NoPassword);
}

#[test]
fn wpa_default_builder_is_empty() {
    let e = WPABuilder::default().build().err().unwrap();
    assert_eq!(e, WPAErrors::NoPasswordAndSSID);
}
