use wifi_qr_specs::wpa2_eap::{WPA2_EAPBuilder, WPA2_EAPError, EAP, PHASE2METHOD, WPA2_EAP};

#[test]
fn wpa2_eap_it_encodes_valid_wifi_forms() {
    let wpa2eap = WPA2_EAP::builder()
        .ssid("ghamza")
        .password("P@ssw0rd")
        .hidden(true)
        .identity("Hamza")
        .anonymous_identity("someone")
        .eap_method(EAP::PEAP)
        .phase_2_method(PHASE2METHOD::MSCHAPV2)
        .build()
        .ok()
        .unwrap();
    assert_eq!(
        wpa2eap.encode(),
        "WIFI:T:WPA2-EAP;S:ghamza;H:true;I:Hamza;A:someone;P:P@ssw0rd;E:PEAP;PH2:MSCHAPV2;;"
    );
}

fn complete() -> WPA2_EAPBuilder {
    let mut b = WPA2_EAPBuilder::new();
    b.ssid("ghamza")
        .identity("Hamza")
        .anonymous_identity("someone")
        .password("P@ssw0rd");
    b
}

#[test]
fn wpa2_eap_methods_follow_password() {
    let out = complete()
        .eap_method(EAP::PEAP)
        .phase_2_method(PHASE2METHOD::MSCHAPV2)
        .build()
        .ok()
        .unwrap()
        .encode();
    let p = out.find("P:P@ssw0rd;").unwrap();
    let e = out.find("E:PEAP;").unwrap();
    let ph2 = out.find("PH2:MSCHAPV2;").unwrap();
    assert!(p < e && e < ph2);
}

#[test]
fn wpa2_eap_methods_default_to_empty() {
    let out = complete().build().ok().unwrap().encode();
    assert_eq!(
        out,
        "WIFI:T:WPA2-EAP;S:ghamza;H:false;I:Hamza;A:someone;P:P@ssw0rd;E:;PH2:;;"
    );
}

#[test]
fn wpa2_eap_every_method_token() {
    let eaps = [
        (EAP::NoMethod, ""),
        (EAP::AKA, "AKA"),
        (EAP::AKA_PRIME, "AKA_PRIME"),
        (EAP::PEAP, "PEAP"),
        (EAP::PWD, "PWD"),
        (EAP::SIM, "SIM"),
        (EAP::TLS, "TLS"),
        (EAP::TTLS, "TTLS"),
        (EAP::UNAUTH_TLS, "UNAUTH_TLS"),
        (EAP::WAPI_CERT, "WAPI_CERT"),
    ];
    for (m, tok) in eaps {
        let out = complete().eap_method(m).build().ok().unwrap().encode();
        assert!(out.ends_with(&format!(";E:{};PH2:;;", tok)));
    }
    let p2s = [
        (PHASE2METHOD::NoMethod, ""),
        (PHASE2METHOD::AKA, "AKA"),
        (PHASE2METHOD::AKA_PRIME, "AKA_PRIME"),
        (PHASE2METHOD::GTC, "GTC"),
        (PHASE2METHOD::MSCHAP, "MSCHAP"),
        (PHASE2METHOD::MSCHAPV2, "MSCHAPV2"),
        (PHASE2METHOD::PAP, "PAP"),
        (PHASE2METHOD::SIM, "SIM"),
    ];
    for (m, tok) in p2s {
        let out = complete().phase_2_method(m).build().ok().unwrap().encode();
        assert!(out.ends_with(&format!(";E:;PH2:{};;", tok)));
    }
}

#[test]
fn wpa2_eap_escapes_free_text() {
    let out = WPA2_EAP::builder()
        .ssid("a:b")
        .identity(r"dom\user")
        .anonymous_identity("x,y")
        .password("p;\"q")
        .build()
        .ok()
        .unwrap()
        .encode();
    assert_eq!(
        out,
        r#"WIFI:T:WPA2-EAP;S:a\:b;H:false;I:dom\\user;A:x\,y;P:p\;\"q;E:;PH2:;;"#
    );
}

#[test]
fn wpa2_eap_reports_first_missing_field() {
    let e = WPA2_EAP::builder().build().err().unwrap();
    assert_eq!(e, WPA2_EAPError::NoSSID);

    let e = WPA2_EAP::builder().password("p").build().err().unwrap();
    assert_eq!(e, WPA2_EAPError::NoSSID);

    let e = WPA2_EAP::builder().ssid("s").password("p").build().err().unwrap();
    assert_eq!(e, WPA2_EAPError::NoIdentity);

    let e = WPA2_EAP::builder()
        .ssid("s")
        .identity("i")
        .password("p")
        .build()
        .err()
        .unwrap();
    assert_eq!(e, WPA2_EAPError::NoAnonymousIdentity);

    let e = WPA2_EAP::builder()
        .ssid("s")
        .identity("i")
        .anonymous_identity("a")
        .eap_method(EAP::TLS)
        .build()
        .err()
        .unwrap();
    assert_eq!(e, WPA2_EAPError::NoPassword);
}

#[test]
fn wpa2_eap_anonymous_identity_uses_a_tag() {
    let out = WPA2_EAP::builder()
        .ssid("a;b")
        .identity("x:y")
        .anonymous_identity("u,v")
        .password("p\"q")
        .build()
        .ok()
        .unwrap()
        .encode();
    assert!(out.contains(r"S:a\;b;"));
    assert!(out.contains(r"I:x\:y;"));
    assert!(out.contains(r"A:u\,v;"));
    assert!(out.contains(r#"P:p\"q;"#));
    assert!(!out.contains("AI:"));
}
