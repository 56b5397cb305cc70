use notes_api::controller::notes::{is_uuid_text, new_record_id, note_id_filter};
use notes_api::text::{replace_all_str, u64_to_decimal};
use notes_api::uuid_text::uuid_to_string;

#[test]
fn decimal_of_counts() {
    assert_eq!(u64_to_decimal(0), "0");
    assert_eq!(u64_to_decimal(7), "7");
    assert_eq!(u64_to_decimal(42), "42");
    assert_eq!(u64_to_decimal(1000), "1000");
    assert_eq!(u64_to_decimal(u64::MAX), u64::MAX.to_string());
}

#[test]
fn replace_matches_std_replace() {
    let cases = [
        ("Bearer abc", "Bearer ", ""),
        ("Bearer Bearer abc", "Bearer ", ""),
        ("abc", "Bearer ", ""),
        ("xBearer y", "Bearer ", ""),
        ("aaa", "aa", "b"),
        ("", "Bearer ", ""),
        ("Bearer", "Bearer ", ""),
        ("ééBearer é", "Bearer ", "-"),
        ("ab", "", "-"),
        ("", "", "x"),
        ("é", "", "[]"),
    ];
    for (s, p, r) in cases {
        assert_eq!(replace_all_str(s, p, r), s.replace(p, r), "{s:?} {p:?} {r:?}");
    }
}

#[test]
fn uuid_forms_accepted_and_refused() {
    let canonical = "f9168c5e-ceb2-4faa-b6bf-329bf39fa1e4";
    let accepted = [
        canonical,
        "F9168C5E-CEB2-4FAA-B6BF-329BF39FA1E4",
        "f9168c5eceb24faab6bf329bf39fa1e4",
        "{f9168c5e-ceb2-4faa-b6bf-329bf39fa1e4}",
        "urn:uuid:f9168c5e-ceb2-4faa-b6bf-329bf39fa1e4",
        "URN:UUID:F9168C5E-CEB2-4FAA-B6BF-329BF39FA1E4",
    ];
    for s in accepted {
        assert!(is_uuid_text(s), "{s}");
        assert_eq!(note_id_filter(s.to_string()), canonical);
    }
    let refused = [
        "",
        "not-a-uuid",
        "f9168c5e-ceb2-4faa-b6bf-329bf39fa1e",
        "f9168c5e-ceb2-4faa-b6bf-329bf39fa1eg",
        "f9168c5eceb2-4faa-b6bf-329bf39fa1e4-",
        "[f9168c5e-ceb2-4faa-b6bf-329bf39fa1e4]",
        "urn:uuix:f9168c5e-ceb2-4faa-b6bf-329bf39fa1e4",
        "f9168c5e-ceb2-4faa-b6bf-329bf39fa1é",
    ];
    for s in refused {
        assert!(!is_uuid_text(s), "{s}");
        assert!(uuid::Uuid::parse_str(s).is_err());
    }
}

#[test]
fn uuid_text_matches_uuid_display() {
    let samples: [[u8; 16]; 3] = [
        [0; 16],
        [0xff; 16],
        [0xf9, 0x16, 0x8c, 0x5e, 0xce, 0xb2, 0x4f, 0xaa, 0xb6, 0xbf, 0x32, 0x9b, 0xf3, 0x9f, 0xa1, 0xe4],
    ];
    for b in samples {
        assert_eq!(uuid_to_string(&b), uuid::Uuid::from_bytes(b).to_string());
    }
    assert_eq!(uuid_to_string(&samples[2]), "f9168c5e-ceb2-4faa-b6bf-329bf39fa1e4");
}

#[test]
fn uuid_round_trip_law_on_values() {
    let b: [u8; 16] = [0xab, 0xcd, 0xef, 0x01, 0x23, 0x45, 0x67, 0x89, 0x9a, 0xbc, 0xde, 0xf0, 0x12, 0x34, 0x56, 0x78];
    let text = uuid_to_string(&b);
    assert_eq!(*uuid::Uuid::parse_str(&text).unwrap().as_bytes(), b);
    assert!(is_uuid_text(&text));
    assert_eq!(note_id_filter(text.clone()), text);
    let fresh = new_record_id();
    assert_eq!(note_id_filter(fresh.clone()), fresh);
}

#[test]
fn new_ids_are_version_four() {
    let a = new_record_id();
    let b = new_record_id();
    assert_ne!(a, b);
    for id in [a, b] {
        let u = uuid::Uuid::parse_str(&id).unwrap();
        assert_eq!(u.get_version_num(), 4);
        assert_eq!(u.to_string(), id);
        let chars: Vec<char> = id.chars().collect();
        assert_eq!(chars[14], '4');
        assert!(matches!(chars[19], '8' | '9' | 'a' | 'b'));
    }
}
