use wifi_qr_specs::no_pass::{NoPass, NoPassBuilder, NoPassErrors};

#[test]
fn no_pass_it_encodes_valid_wifi_forms() {
    let no_pass = NoPass::builder()
        .ssid("ghamza")
        .hidden(true)
        .build()
        .ok()
        .unwrap();
    assert_eq!(no_pass.encode(), "WIFI:T:nopass;S:ghamza;H:true;;");

    let no_pass = NoPass::builder()
        .ssid("ghamza")
        .hidden(false)
        .build()
        .ok()
        .unwrap();
    assert_eq!(no_pass.encode(), "WIFI:T:nopass;S:ghamza;H:false;;");
}

#[test]
fn no_pass_it_throws_error_when_required_field_is_missing() {
    let no_pass = NoPass::builder()
        .build()
        .err()
        .unwrap();
    assert!(matches!(no_pass, NoPassErrors::NoSSID));
}

#[test]
fn no_pass_hidden_defaults_to_false() {
    let no_pass = NoPassBuilder::new().ssid("home").build().ok().unwrap();
    assert_eq!(no_pass.encode(), "WIFI:T:nopass;S:home;H:false;;");
}

#[test]
fn no_pass_last_ssid_wins() {
    let no_pass = NoPass::builder()
        .ssid("first")
        .ssid("second")
        .build()
        .ok()
        .unwrap();
    assert_eq!(no_pass.encode(), "WIFI:T:nopass;S:second;H:false;;");
}

#[test]
fn no_pass_escapes_ssid() {
    let no_pass = NoPass::builder().ssid("a;b:c").build().ok().unwrap();
    assert_eq!(no_pass.encode(), r"WIFI:T:nopass;S:a\;b\:c;H:false;;");
}

#[test]
fn no_pass_empty_ssid_is_present() {
    let no_pass = NoPass::builder().ssid("").build().ok().unwrap();
    assert_eq!(no_pass.encode(), "WIFI:T:nopass;S:;H:false;;");
}

#[test]
fn no_pass_encode_repeats() {
    let no_pass = NoPass::builder().ssid("x").hidden(true).build().ok().unwrap();
    assert_eq!(no_pass.encode(), no_pass.encode());
}
