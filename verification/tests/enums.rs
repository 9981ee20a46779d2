use rustls::codec::{Codec, InvalidMessage, Reader};
use rustls::enums::{
    AlertDescription, CertificateCompressionAlgorithm, CertificateType, CipherSuite, ContentType,
    EchClientHelloType, HandshakeType, HashAlgorithm, ProtocolVersion, SignatureAlgorithm,
    SignatureScheme,
};
use rustls::registry::{ProtocolEnum, Render};

fn get8<T: Codec>(enum_value: &T) -> u8 {
    let enc = enum_value.get_encoding();
    assert_eq!(enc.len(), 1);
    enc[0]
}

fn get16<T: Codec>(enum_value: &T) -> u16 {
    let enc = enum_value.get_encoding();
    assert_eq!(enc.len(), 2);
    u16::from_be_bytes([enc[0], enc[1]])
}

fn test_enum8<T: Codec>(first: T, last: T) {
    let first_v = get8(&first);
    let last_v = get8(&last);

    for val in first_v..last_v + 1 {
        let mut buf = Vec::new();
        val.encode(&mut buf);
        assert_eq!(buf.len(), 1);

        let t = T::read_bytes(&buf).unwrap();
        assert_eq!(val, get8(&t));
    }
}

fn test_enum16<T: Codec>(first: T, last: T) {
    let first_v = get16(&first);
    let last_v = get16(&last);

    for val in first_v..last_v + 1 {
        let mut buf = Vec::new();
        val.encode(&mut buf);
        assert_eq!(buf.len(), 2);

        let t = T::read_bytes(&buf).unwrap();
        assert_eq!(val, get16(&t));
    }
}

#[test]
fn test_enums() {
    test_enum8::<SignatureAlgorithm>(SignatureAlgorithm::Anonymous, SignatureAlgorithm::ECDSA);
    test_enum8::<ContentType>(ContentType::ChangeCipherSpec, ContentType::Heartbeat);
    test_enum8::<HandshakeType>(HandshakeType::HelloRequest, HandshakeType::MessageHash);
    test_enum8::<AlertDescription>(
        AlertDescription::CloseNotify,
        AlertDescription::NoApplicationProtocol,
    );
    test_enum16::<CertificateCompressionAlgorithm>(
        CertificateCompressionAlgorithm::Zlib,
        CertificateCompressionAlgorithm::Zstd,
    );
    test_enum8::<CertificateType>(CertificateType::X509, CertificateType::RawPublicKey);
}

#[test]
fn tls13_signature_restrictions() {
    // rsa-pkcs1 denied
    assert!(!SignatureScheme::RSA_PKCS1_SHA1.supported_in_tls13());
    assert!(!SignatureScheme::RSA_PKCS1_SHA256.supported_in_tls13());
    assert!(!SignatureScheme::RSA_PKCS1_SHA384.supported_in_tls13());
    assert!(!SignatureScheme::RSA_PKCS1_SHA512.supported_in_tls13());

    // dsa denied
    assert!(!SignatureScheme::from(0x0201).supported_in_tls13());
    assert!(!SignatureScheme::from(0x0202).supported_in_tls13());
    assert!(!SignatureScheme::from(0x0203).supported_in_tls13());
    assert!(!SignatureScheme::from(0x0204).supported_in_tls13());
    assert!(!SignatureScheme::from(0x0205).supported_in_tls13());
    assert!(!SignatureScheme::from(0x0206).supported_in_tls13());

    // common
    assert!(SignatureScheme::ED25519.supported_in_tls13());
    assert!(SignatureScheme::ED448.supported_in_tls13());
    assert!(SignatureScheme::RSA_PSS_SHA256.supported_in_tls13());
    assert!(SignatureScheme::RSA_PSS_SHA384.supported_in_tls13());
    assert!(SignatureScheme::RSA_PSS_SHA512.supported_in_tls13());

    // rsa_pss_rsae_*
    assert!(SignatureScheme::from(0x0804).supported_in_tls13());
    assert!(SignatureScheme::from(0x0805).supported_in_tls13());
    assert!(SignatureScheme::from(0x0806).supported_in_tls13());

    // ecdsa_brainpool*
    assert!(SignatureScheme::from(0x081a).supported_in_tls13());
    assert!(SignatureScheme::from(0x081b).supported_in_tls13());
    assert!(SignatureScheme::from(0x081c).supported_in_tls13());
}

fn round_trip_8<T: Codec + ProtocolEnum<Code = u8>>() {
    for code in 0..=255u8 {
        let bytes = [code];
        let value = T::read_bytes(&bytes).unwrap();
        assert_eq!(value.code(), code);
        assert_eq!(value.get_encoding(), bytes.to_vec());
    }
}

fn round_trip_16<T: Codec + ProtocolEnum<Code = u16>>() {
    for code in 0..=65535u16 {
        let bytes = code.to_be_bytes();
        let value = T::read_bytes(&bytes).unwrap();
        assert_eq!(value.code(), code);
        assert_eq!(value.get_encoding(), bytes.to_vec());
    }
}

#[test]
fn every_bit_pattern_round_trips() {
    round_trip_8::<AlertDescription>();
    round_trip_8::<HandshakeType>();
    round_trip_8::<ContentType>();
    round_trip_8::<SignatureAlgorithm>();
    round_trip_8::<HashAlgorithm>();
    round_trip_8::<CertificateType>();
    round_trip_8::<EchClientHelloType>();
    round_trip_16::<ProtocolVersion>();
    round_trip_16::<CipherSuite>();
    round_trip_16::<SignatureScheme>();
    round_trip_16::<CertificateCompressionAlgorithm>();
}

#[test]
fn integers_are_big_endian() {
    assert_eq!(0x12u8.get_encoding(), vec![0x12]);
    assert_eq!(0x1234u16.get_encoding(), vec![0x12, 0x34]);
    assert_eq!(0x00ffu16.get_encoding(), vec![0x00, 0xff]);
    assert_eq!(u16::read_bytes(&[0xfe, 0xfd]), Ok(0xfefd));
    assert_eq!(u8::read_bytes(&[0x7f]), Ok(0x7f));
    assert_eq!(ProtocolVersion::TLSv1_3.get_encoding(), vec![0x03, 0x04]);
    assert_eq!(SignatureScheme::ED25519.to_array(), [0x08, 0x07]);
}

#[test]
fn encode_appends() {
    let mut bytes = vec![0xaa];
    ContentType::Handshake.encode(&mut bytes);
    ProtocolVersion::TLSv1_2.encode(&mut bytes);
    assert_eq!(bytes, vec![0xaa, 0x16, 0x03, 0x03]);
}

#[test]
fn decode_fails_only_on_truncated_input() {
    assert_eq!(u8::read_bytes(&[]), Err(InvalidMessage::MissingData("u8")));
    assert_eq!(u16::read_bytes(&[]), Err(InvalidMessage::MissingData("u16")));
    assert_eq!(u16::read_bytes(&[1]), Err(InvalidMessage::MissingData("u16")));
    assert_eq!(
        ContentType::read_bytes(&[]),
        Err(InvalidMessage::MissingData("ContentType"))
    );
    assert_eq!(
        SignatureScheme::read_bytes(&[0x04]),
        Err(InvalidMessage::MissingData("SignatureScheme"))
    );
    assert_eq!(
        CipherSuite::read_bytes(&[]),
        Err(InvalidMessage::MissingData("CipherSuite"))
    );
    // a complete code that nobody has registered is no failure
    assert!(matches!(ContentType::read_bytes(&[0x99]), Ok(ContentType::Unknown(0x99))));
    assert!(matches!(
        SignatureScheme::read_bytes(&[0x12, 0x34]),
        Ok(SignatureScheme::Unknown(0x1234))
    ));
}

#[test]
fn reader_hands_out_front_to_back() {
    let bytes = [0x16, 0x03, 0x03, 0x00];
    let mut r = Reader::init(&bytes);
    assert_eq!(r.left(), 4);
    assert_eq!(r.used(), 0);
    assert!(matches!(ContentType::read(&mut r), Ok(ContentType::Handshake)));
    assert_eq!(r.used(), 1);
    assert!(matches!(ProtocolVersion::read(&mut r), Ok(ProtocolVersion::TLSv1_2)));
    assert_eq!(r.left(), 1);
    // too short for two bytes: nothing is read, and the reader stays put
    assert_eq!(
        ProtocolVersion::read(&mut r),
        Err(InvalidMessage::MissingData("ProtocolVersion"))
    );
    assert_eq!(r.left(), 1);
    assert_eq!(r.used(), 3);
    assert!(r.any_left());
    assert_eq!(r.take(2), None);
    assert_eq!(r.take(1), Some(&[0x00u8][..]));
    assert!(!r.any_left());
    assert_eq!(r.take(0), Some(&[][..]));
    assert_eq!(r.take(1), None);
}

#[test]
fn codes_at_the_edges() {
    assert!(matches!(AlertDescription::from(0x00), AlertDescription::CloseNotify));
    assert!(matches!(AlertDescription::from(0x01), AlertDescription::Unknown(0x01)));
    assert!(matches!(AlertDescription::from(0x09), AlertDescription::Unknown(0x09)));
    assert!(matches!(AlertDescription::from(0x0a), AlertDescription::UnexpectedMessage));
    assert!(matches!(AlertDescription::from(0x0b), AlertDescription::Unknown(0x0b)));
    assert!(matches!(AlertDescription::from(0xff), AlertDescription::Unknown(0xff)));
    assert!(matches!(HandshakeType::from(0xfe), HandshakeType::MessageHash));
    assert!(matches!(HandshakeType::from(0xff), HandshakeType::Unknown(0xff)));
    assert!(matches!(CipherSuite::from(0x0000), CipherSuite::TLS_NULL_WITH_NULL_NULL));
    assert!(matches!(
        CipherSuite::from(0xfeff),
        CipherSuite::SSL_RSA_FIPS_WITH_3DES_EDE_CBC_SHA
    ));
    assert!(matches!(CipherSuite::from(0xffff), CipherSuite::Unknown(0xffff)));
    assert!(matches!(CipherSuite::from(0x1300), CipherSuite::Unknown(0x1300)));
    assert!(matches!(CipherSuite::from(0x1306), CipherSuite::Unknown(0x1306)));
    assert!(matches!(ProtocolVersion::from(0x0000), ProtocolVersion::Unknown(0)));
    assert!(matches!(ProtocolVersion::from(0xfefc), ProtocolVersion::DTLSv1_3));
    assert!(matches!(ProtocolVersion::from(0xffff), ProtocolVersion::Unknown(0xffff)));
    assert!(matches!(
        CertificateCompressionAlgorithm::from(0),
        CertificateCompressionAlgorithm::Unknown(0)
    ));
    assert!(matches!(CertificateType::from(1), CertificateType::Unknown(1)));
    assert!(matches!(EchClientHelloType::from(2), EchClientHelloType::Unknown(2)));
    assert!(matches!(HashAlgorithm::from(7), HashAlgorithm::Unknown(7)));
    assert!(matches!(HashAlgorithm::from(0), HashAlgorithm::NONE));
    assert_eq!(u8::from(SignatureAlgorithm::ED448), 8);
    assert_eq!(u16::from(SignatureScheme::ML_DSA_87), 0x0906);
    assert_eq!(u16::from(CipherSuite::Unknown(0xabcd)), 0xabcd);
}

#[test]
fn equality_goes_by_code() {
    assert_eq!(SignatureScheme::from(0x0401), SignatureScheme::RSA_PKCS1_SHA256);
    assert_eq!(SignatureScheme::Unknown(0x0401), SignatureScheme::RSA_PKCS1_SHA256);
    assert_ne!(SignatureScheme::Unknown(0x0402), SignatureScheme::RSA_PKCS1_SHA256);
    assert_eq!(ContentType::Unknown(7), ContentType::Unknown(7));
    assert_ne!(ContentType::Alert, ContentType::Handshake);
    assert_eq!(CipherSuite::from(0x1301), CipherSuite::TLS13_AES_128_GCM_SHA256);
}

#[test]
fn names() {
    assert_eq!(ContentType::Alert.as_str(), Some("Alert"));
    assert_eq!(ContentType::Unknown(3).as_str(), None);
    assert_eq!(
        CipherSuite::TLS_RSA_WITH_NULL_MD5.as_str(),
        Some("TLS_RSA_WITH_NULL_MD5")
    );
    assert_eq!(SignatureScheme::from(0x0904).as_str(), Some("ML_DSA_44"));
    assert_eq!(ProtocolVersion::registry(), "ProtocolVersion");
}

#[test]
fn rendering() {
    assert_eq!(ContentType::Alert.render(), "Alert");
    assert_eq!(ContentType::Unknown(0x03).render(), "Unknown(0x3)");
    assert_eq!(ContentType::from(0x00).render(), "Unknown(0x0)");
    assert_eq!(ContentType::from(0xff).render(), "Unknown(0xff)");
    assert_eq!(SignatureScheme::from(0x1234).render(), "Unknown(0x1234)");
    assert_eq!(SignatureScheme::from(0xffff).render(), "Unknown(0xffff)");
    assert_eq!(SignatureScheme::from(0x0100).render(), "Unknown(0x100)");
    assert_eq!(SignatureScheme::ED25519.render(), "ED25519");
    assert_eq!(
        CipherSuite::TLS13_AES_128_GCM_SHA256.render(),
        "TLS13_AES_128_GCM_SHA256"
    );
}

#[test]
fn quiet_cipher_suites_are_shown_by_code() {
    assert!(!CipherSuite::TLS13_AES_128_GCM_SHA256.quiet());
    assert!(CipherSuite::TLS_RSA_WITH_NULL_MD5.quiet());
    assert!(!CipherSuite::Unknown(0x7777).quiet());
    assert_eq!(CipherSuite::TLS_RSA_WITH_NULL_MD5.render(), "Unknown(0x1)");
    assert_eq!(
        CipherSuite::SSL_RSA_FIPS_WITH_3DES_EDE_CBC_SHA.render(),
        "Unknown(0xfeff)"
    );
    // all the same it encodes, decodes and compares like any other
    let quiet = CipherSuite::TLS_RSA_WITH_NULL_MD5;
    assert_eq!(quiet.get_encoding(), vec![0x00, 0x01]);
    assert_eq!(CipherSuite::read_bytes(&[0x00, 0x01]), Ok(quiet));
    assert!(!ContentType::Alert.quiet());
}

#[test]
fn algorithm_of_known_schemes() {
    assert!(matches!(SignatureScheme::from(0x0401).algorithm(), SignatureAlgorithm::RSA));
    assert!(matches!(SignatureScheme::from(0x0807).algorithm(), SignatureAlgorithm::ED25519));
    assert!(matches!(SignatureScheme::RSA_PKCS1_SHA1.algorithm(), SignatureAlgorithm::RSA));
    assert!(matches!(SignatureScheme::RSA_PSS_SHA512.algorithm(), SignatureAlgorithm::RSA));
    assert!(matches!(SignatureScheme::ECDSA_SHA1_Legacy.algorithm(), SignatureAlgorithm::ECDSA));
    assert!(matches!(
        SignatureScheme::ECDSA_NISTP521_SHA512.algorithm(),
        SignatureAlgorithm::ECDSA
    ));
    assert!(matches!(SignatureScheme::ED448.algorithm(), SignatureAlgorithm::ED448));
    assert!(matches!(SignatureScheme::ML_DSA_44.algorithm(), SignatureAlgorithm::Unknown(0)));
    assert!(matches!(SignatureScheme::ML_DSA_65.algorithm(), SignatureAlgorithm::Unknown(0)));
    assert!(matches!(SignatureScheme::ML_DSA_87.algorithm(), SignatureAlgorithm::Unknown(0)));
    assert!(matches!(
        SignatureScheme::Unknown(0x1234).algorithm(),
        SignatureAlgorithm::Unknown(0)
    ));
}

#[test]
fn concrete_classifications() {
    let rsa = SignatureScheme::from(0x0401);
    assert!(matches!(rsa.algorithm(), SignatureAlgorithm::RSA));
    assert!(!rsa.supported_in_tls13());

    let ed = SignatureScheme::from(0x0807);
    assert!(matches!(ed.algorithm(), SignatureAlgorithm::ED25519));
    assert!(ed.supported_in_tls13());

    assert!(!SignatureScheme::from(0x0201).supported_in_tls13());
    assert!(SignatureScheme::from(0x0904).supported_in_tls13());
}

#[test]
fn classification_is_total() {
    for code in 0..=65535u16 {
        let scheme = SignatureScheme::from(code);
        let algorithm = scheme.algorithm();
        if scheme.as_str().is_none() {
            assert!(matches!(algorithm, SignatureAlgorithm::Unknown(0)));
        }
        assert!(matches!(
            algorithm,
            SignatureAlgorithm::RSA
                | SignatureAlgorithm::ECDSA
                | SignatureAlgorithm::ED25519
                | SignatureAlgorithm::ED448
                | SignatureAlgorithm::Unknown(0)
        ));
        let [hash, sign] = code.to_be_bytes();
        assert_eq!(scheme.supported_in_tls13(), hash >= 4 && sign >= 3);
    }
}

#[test]
fn tls13_policy_is_a_denylist() {
    // a banned hash byte is refused even in a code that is no hash/signature pair
    assert!(!SignatureScheme::from(0x0107).supported_in_tls13());
    assert!(!SignatureScheme::from(0x0003).supported_in_tls13());
    assert!(!SignatureScheme::from(0x03ff).supported_in_tls13());
    // a banned signature byte likewise
    assert!(!SignatureScheme::from(0x0900).supported_in_tls13());
    assert!(!SignatureScheme::from(0x0901).supported_in_tls13());
    assert!(!SignatureScheme::from(0x0902).supported_in_tls13());
    assert!(!SignatureScheme::from(0xff02).supported_in_tls13());
    // everything else passes, named or not
    assert!(SignatureScheme::from(0x0403).supported_in_tls13());
    assert!(SignatureScheme::from(0x0503).supported_in_tls13());
    assert!(SignatureScheme::from(0x0603).supported_in_tls13());
    assert!(SignatureScheme::from(0x0903).supported_in_tls13());
    assert!(SignatureScheme::from(0xffff).supported_in_tls13());
    assert!(SignatureScheme::from(0x0905).supported_in_tls13());
    assert!(SignatureScheme::from(0x0906).supported_in_tls13());
    // the policy goes by the code, however the value was made
    assert!(!SignatureScheme::Unknown(0x0401).supported_in_tls13());
}

#[test]
fn the_class_of_a_scheme_goes_by_its_code() {
    let named = SignatureScheme::RSA_PKCS1_SHA256;
    let made = SignatureScheme::Unknown(0x0401);
    assert_eq!(u16::from(named), u16::from(made));
    assert_eq!(named, made);
    assert!(matches!(named.algorithm(), SignatureAlgorithm::RSA));
    assert!(matches!(made.algorithm(), SignatureAlgorithm::RSA));
    assert_eq!(named.supported_in_tls13(), made.supported_in_tls13());
    assert!(matches!(
        SignatureScheme::Unknown(0x0403).algorithm(),
        SignatureAlgorithm::ECDSA
    ));
    assert!(matches!(
        SignatureScheme::Unknown(0x0807).algorithm(),
        SignatureAlgorithm::ED25519
    ));
    assert!(matches!(
        SignatureScheme::Unknown(0x0808).algorithm(),
        SignatureAlgorithm::ED448
    ));
    assert!(matches!(
        SignatureScheme::Unknown(0x0904).algorithm(),
        SignatureAlgorithm::Unknown(0)
    ));
    for code in 0..=65535u16 {
        let decoded = SignatureScheme::from(code).algorithm();
        let made = SignatureScheme::Unknown(code).algorithm();
        assert_eq!(u8::from(decoded), u8::from(made));
        assert_eq!(decoded.as_str(), made.as_str());
    }
}

#[test]
fn names_and_rendering_go_by_the_code() {
    assert_eq!(SignatureScheme::Unknown(0x0401).as_str(), Some("RSA_PKCS1_SHA256"));
    assert_eq!(SignatureScheme::Unknown(0x0401).render(), "RSA_PKCS1_SHA256");
    assert_eq!(ContentType::Unknown(0x15).as_str(), Some("Alert"));
    assert_eq!(ContentType::Unknown(0x15).render(), "Alert");
    assert_eq!(ContentType::Unknown(0x19).as_str(), None);
    assert!(CipherSuite::Unknown(0x0001).quiet());
    assert_eq!(CipherSuite::Unknown(0x0001).as_str(), Some("TLS_RSA_WITH_NULL_MD5"));
    assert_eq!(CipherSuite::Unknown(0x0001).render(), "Unknown(0x1)");
    assert!(!CipherSuite::Unknown(0x1301).quiet());
    assert_eq!(CipherSuite::Unknown(0x1301).render(), "TLS13_AES_128_GCM_SHA256");
    for code in 0..=65535u16 {
        let decoded = CipherSuite::from(code);
        let made = CipherSuite::Unknown(code);
        assert_eq!(decoded.as_str(), made.as_str());
        assert_eq!(decoded.quiet(), made.quiet());
        assert_eq!(decoded.render(), made.render());
    }
    for code in 0..=255u8 {
        let decoded = AlertDescription::from(code);
        let made = AlertDescription::Unknown(code);
        assert_eq!(decoded.as_str(), made.as_str());
        assert_eq!(decoded.render(), made.render());
    }
}
